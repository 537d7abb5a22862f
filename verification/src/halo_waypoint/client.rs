use vstd::prelude::*;
use crate::error::outcome_view;
use crate::error::Error;
use crate::error::ErrorView;
use crate::halo_waypoint::cache::cache_capacity;
use crate::halo_waypoint::cache::cache_entries;
use crate::halo_waypoint::cache::cache_get;
use crate::halo_waypoint::cache::cache_insert;
use crate::halo_waypoint::cache::cache_new;
use crate::halo_waypoint::cache::no_entries;
use crate::halo_waypoint::cache::CacheKey;
use crate::halo_waypoint::cache::CacheKeyView;
use crate::halo_waypoint::cache::CacheValue;
use crate::halo_waypoint::cache::CacheValueView;
use crate::halo_waypoint::cache::OutcomeCache;
use crate::halo_waypoint::cache::MAX_TTL_SECS;
use crate::halo_waypoint::requests::auth::GetAuthRequest;
use crate::halo_waypoint::requests::auth::GetAuthRequestForm;
use crate::halo_waypoint::requests::auth::GetAuthRequestGetForm;
use crate::halo_waypoint::requests::auth::GetAuthRequestPostForm;
use crate::halo_waypoint::requests::auth::GetAuthRequestRedirect;
use crate::halo_waypoint::requests::auth::GetAuthRequestView;
use crate::halo_waypoint::requests::auth::GetAuthResponse;
use crate::halo_waypoint::requests::service_record::GetServiceRecordRequest;
use crate::halo_waypoint::requests::service_record::GetServiceRecordResponse;
use crate::halo_waypoint::requests::service_record::GetServiceRecordResponseView;
use crate::halo_waypoint::transport::Header;
use crate::halo_waypoint::transport::Request;
use crate::halo_waypoint::transport::RequestView;
use crate::halo_waypoint::transport::Response;
use crate::halo_waypoint::transport::ResponseView;
use crate::views::option_view;

verus! {

/// What the library calls itself towards the sites it talks to.
pub const USER_AGENT: &'static str = "halomcc.run/0.1";

/// How many sessions are remembered at most.
pub const AUTH_CACHE_CAPACITY: usize = 10;

/// How long a session is remembered, in seconds: four hours.
pub const AUTH_CACHE_TTL_SECS: u64 = 14400;

/// How many pages of statistics are remembered at most.
pub const SERVICE_RECORD_CACHE_CAPACITY: usize = 1000;

/// How long a page of statistics is remembered, in seconds: ten minutes.
pub const SERVICE_RECORD_CACHE_TTL_SECS: u64 = 600;

/// `request` with the header that names the library added behind its own.
pub open spec fn with_user_agent(request: RequestView) -> RequestView {
    RequestView {
        method: request.method,
        uri: request.uri,
        headers: request.headers.push(("user-agent"@, USER_AGENT@)),
        body: request.body,
    }
}

/// Readies a request for sending: every request that goes out names the library.
pub fn prepare(request: Request) -> (ready: Request)
    ensures
        ready@ == with_user_agent(request@),
{
    let mut request = request;
    let ghost before = request@;
    request.headers.push(Header::new("user-agent", USER_AGENT.to_owned()));
    assert(request@.headers =~= before.headers.push(("user-agent"@, USER_AGENT@)));
    request
}

/// Where signing in stands: the step whose answer is awaited.
#[derive(Clone, Copy, Debug, PartialEq, Eq, Structural)]
pub enum AuthState {
    /// The login form was asked for.
    LoginFormFetch,
    /// The credentials were posted.
    CredentialSubmission,
    /// The redirect was followed.
    RedirectFollow,
}

/// What to do next while signing in.
#[derive(Debug)]
pub enum AuthAction {
    /// Send the request and come back with its answer, in the given state.
    Send(AuthState, Request),
    /// Signing in has succeeded: this is the session.
    Finished(GetAuthResponse),
    /// Signing in has failed, and is not tried further.
    Failed(Error),
}

/// The mathematical value of an [`AuthAction`].
pub enum AuthActionView {
    Send(AuthState, RequestView),
    Finished(Seq<char>),
    Failed(ErrorView),
}

impl View for AuthAction {
    type V = AuthActionView;

    open spec fn view(&self) -> AuthActionView {
        match self {
            AuthAction::Send(state, request) => AuthActionView::Send(*state, request@),
            AuthAction::Finished(session) => AuthActionView::Finished(session@),
            AuthAction::Failed(error) => AuthActionView::Failed(error@),
        }
    }
}

/// What the answer `response` leads to in the state `state`, for the account
/// `credentials`: each step either hands the next request on, or ends the sign-in
/// with a failure; the last step ends it with the session.
pub open spec fn advanced(
    state: AuthState,
    credentials: GetAuthRequestView,
    response: ResponseView,
) -> AuthActionView {
    match state {
        AuthState::LoginFormFetch => match GetAuthRequestForm::read(response) {
            Ok(form) => AuthActionView::Send(
                AuthState::CredentialSubmission,
                GetAuthRequestPostForm::request_of(credentials, form),
            ),
            Err(error) => AuthActionView::Failed(error),
        },
        AuthState::CredentialSubmission => match GetAuthRequestRedirect::read(response) {
            Ok(uri) => AuthActionView::Send(
                AuthState::RedirectFollow,
                GetAuthRequestRedirect::request_to(uri),
            ),
            Err(error) => AuthActionView::Failed(error),
        },
        AuthState::RedirectFollow => match GetAuthResponse::read(response) {
            Ok(session) => AuthActionView::Finished(session),
            Err(error) => AuthActionView::Failed(error),
        },
    }
}

/// The steps of a sign-in follow each other in one order: the form, the
/// credentials, the redirect. No step is skipped or repeated, and only the answer
/// to the last step ends the sign-in with a session.
pub proof fn lemma_steps_follow_in_order(
    state: AuthState,
    credentials: GetAuthRequestView,
    response: ResponseView,
)
    ensures
        match advanced(state, credentials, response) {
            AuthActionView::Send(next, _) => {
                ||| state == AuthState::LoginFormFetch && next == AuthState::CredentialSubmission
                ||| state == AuthState::CredentialSubmission && next == AuthState::RedirectFollow
            },
            AuthActionView::Finished(_) => state == AuthState::RedirectFollow,
            AuthActionView::Failed(_) => true,
        },
{
}

/// The request that opens a sign-in, to be answered in the first state: `None`
/// only where the address of the login form is not accepted as a URI.
pub fn begin() -> (request: Option<Request>)
    ensures
        option_view(request) == GetAuthRequestGetForm::request(),
{
    GetAuthRequestGetForm.to_request()
}

/// Takes signing in one step further with the answer to the request that was
/// sent last.
pub fn advance(state: AuthState, credentials: &GetAuthRequest, response: Response) -> (action:
    AuthAction)
    ensures
        action@ == advanced(state, credentials@, response@),
{
    match state {
        AuthState::LoginFormFetch => match GetAuthRequestForm::try_from_response(response) {
            Ok(form) => {
                let post = GetAuthRequestPostForm::new(credentials, &form);
                AuthAction::Send(AuthState::CredentialSubmission, post.to_request())
            },
            Err(error) => AuthAction::Failed(error),
        },
        AuthState::CredentialSubmission => match GetAuthRequestRedirect::try_from_response(
            response,
        ) {
            Ok(redirect) => AuthAction::Send(AuthState::RedirectFollow, redirect.to_request()),
            Err(error) => AuthAction::Failed(error),
        },
        AuthState::RedirectFollow => match GetAuthResponse::try_from_response(response) {
            Ok(session) => AuthAction::Finished(session),
            Err(error) => AuthAction::Failed(error),
        },
    }
}

/// What a lookup may hand back for `key` from a cache that holds `entries`:
/// nothing, or the value that the cache holds for the key.
pub open spec fn served(
    entries: Map<CacheKeyView, CacheValueView>,
    key: CacheKeyView,
    found: Option<CacheValueView>,
) -> bool {
    found matches Some(value) ==> entries.contains_key(key) && entries[key] == value
}

/// How storing `value` under `key` changes what a cache holds: the key then
/// stands for the value, where it stands for anything; the other keys stand for
/// what they stood for, or have left; and a cache with room for at least one entry
/// does hold the key.
pub open spec fn stored(
    before: Map<CacheKeyView, CacheValueView>,
    after: Map<CacheKeyView, CacheValueView>,
    key: CacheKeyView,
    value: CacheValueView,
    capacity: nat,
) -> bool {
    &&& forall|k: CacheKeyView| #[trigger]
        after.contains_key(k) ==> {
            ||| k == key && after[k] == value
            ||| k != key && before.contains_key(k) && after[k] == before[k]
        }
    &&& capacity >= 1 ==> after.contains_key(key)
}

/// A hit on a key hands back what was stored for it last, success or failure.
pub proof fn lemma_hit_replays_what_was_stored(
    before: Map<CacheKeyView, CacheValueView>,
    after: Map<CacheKeyView, CacheValueView>,
    key: CacheKeyView,
    value: CacheValueView,
    capacity: nat,
    found: Option<CacheValueView>,
)
    requires
        stored(before, after, key, value, capacity),
        served(after, key, found),
    ensures
        found is Some ==> found == Some(value),
{
}

/// Storing under one key changes no answer for another: a hit on another key
/// hands back what the cache held for it before.
pub proof fn lemma_store_leaves_other_keys(
    before: Map<CacheKeyView, CacheValueView>,
    after: Map<CacheKeyView, CacheValueView>,
    key: CacheKeyView,
    value: CacheValueView,
    capacity: nat,
    other: CacheKeyView,
    found: Option<CacheValueView>,
)
    requires
        stored(before, after, key, value, capacity),
        other != key,
        served(after, other, found),
    ensures
        served(before, other, found),
{
}

/// A cache that has nothing stored serves nothing: every first lookup is a miss,
/// and the request has to be made.
pub proof fn lemma_empty_cache_misses(key: CacheKeyView, found: Option<CacheValueView>)
    requires
        served(no_entries(), key, found),
    ensures
        found is None,
{
}

/// A copy of the outcome of a sign-in.
pub fn clone_auth_outcome(outcome: &Result<GetAuthResponse, Error>) -> (copy: Result<
    GetAuthResponse,
    Error,
>)
    ensures
        outcome_view(copy) == outcome_view(*outcome),
{
    match outcome {
        Ok(session) => Ok(session.clone()),
        Err(error) => Err(error.clone()),
    }
}

/// A copy of the outcome of a request for statistics.
pub fn clone_service_record_outcome(outcome: &Result<GetServiceRecordResponse, Error>) -> (copy:
    Result<GetServiceRecordResponse, Error>)
    ensures
        outcome_view(copy) == outcome_view(*outcome),
{
    match outcome {
        Ok(page) => Ok(page.clone()),
        Err(error) => Err(error.clone()),
    }
}

/// What was found for a request, with what it holds as a mathematical value.
pub open spec fn hit_view<T: View>(hit: Option<Result<T, Error>>) -> Option<
    Result<T::V, ErrorView>,
> {
    match hit {
        Some(outcome) => Some(outcome_view(outcome)),
        None => None,
    }
}

/// What a lookup comes to for a sign-in: the outcome that was found, where
/// something was found and it is the outcome of a sign-in; else nothing, and the
/// sign-in has to be made.
pub open spec fn auth_hit_of(found: Option<CacheValueView>) -> Option<
    Result<Seq<char>, ErrorView>,
> {
    match found {
        Some(CacheValueView::Auth(outcome)) => Some(outcome),
        _ => None,
    }
}

/// What a lookup comes to for a request for statistics: the outcome that was
/// found, where something was found and it is the outcome of such a request; else
/// nothing, and the request has to be made.
pub open spec fn service_record_hit_of(found: Option<CacheValueView>) -> Option<
    Result<GetServiceRecordResponseView, ErrorView>,
> {
    match found {
        Some(CacheValueView::ServiceRecord(outcome)) => Some(outcome),
        _ => None,
    }
}

/// Outcomes that are remembered for a while, each under the request it answers.
/// An outcome is handed back for as long as the cache keeps it, a failure like a
/// success; how long that is depends on the clock and on what else is stored.
pub struct ResultCache {
    cache: OutcomeCache,
    ttl_secs: u64,
}

impl ResultCache {
    /// What the cache holds, whether it has expired or not.
    pub closed spec fn entries(self) -> Map<CacheKeyView, CacheValueView> {
        cache_entries(self.cache)
    }

    /// How many outcomes the cache holds at most.
    pub closed spec fn capacity(self) -> nat {
        cache_capacity(self.cache)
    }

    /// For how many seconds an outcome is handed back.
    pub closed spec fn ttl(self) -> u64 {
        self.ttl_secs
    }

    /// The time to live that is used where `ttl_secs` is asked for: no more than
    /// a year.
    pub open spec fn bounded(ttl_secs: u64) -> u64 {
        if ttl_secs <= MAX_TTL_SECS {
            ttl_secs
        } else {
            MAX_TTL_SECS
        }
    }

    /// An empty cache for at most `capacity` outcomes, each kept for `ttl_secs`
    /// seconds, or for a year where that is less.
    pub fn new(capacity: usize, ttl_secs: u64) -> (made: Self)
        ensures
            made.entries() == no_entries(),
            made.capacity() == capacity,
            made.ttl() == ResultCache::bounded(ttl_secs),
    {
        let ttl_secs = if ttl_secs <= MAX_TTL_SECS {
            ttl_secs
        } else {
            MAX_TTL_SECS
        };
        ResultCache { cache: cache_new(capacity), ttl_secs }
    }

    /// What the cache remembers for `key`, if it remembers anything.
    pub fn lookup(&self, key: &CacheKey) -> (found: Option<&CacheValue>)
        ensures
            served(self.entries(), key@, option_view(found)),
    {
        cache_get(&self.cache, key)
    }

    /// Remembers `value` for `key`, for the cache's time to live.
    pub fn store(&mut self, key: CacheKey, value: CacheValue)
        ensures
            stored(old(self).entries(), final(self).entries(), key@, value@, old(self).capacity()),
            final(self).capacity() == old(self).capacity(),
            final(self).ttl() == old(self).ttl(),
    {
        let ttl_secs = if self.ttl_secs <= MAX_TTL_SECS {
            self.ttl_secs
        } else {
            MAX_TTL_SECS
        };
        cache_insert(&mut self.cache, key, value, ttl_secs);
    }
}

/// The two caches of the client: one for sessions, one for pages of statistics.
/// Neither is touched by what happens to the other.
pub struct InMemoryCache {
    auth: ResultCache,
    service_records: ResultCache,
}

impl InMemoryCache {
    /// What is remembered of sign-ins.
    pub closed spec fn auth_entries(self) -> Map<CacheKeyView, CacheValueView> {
        self.auth.entries()
    }

    /// What is remembered of requests for statistics.
    pub closed spec fn service_record_entries(self) -> Map<CacheKeyView, CacheValueView> {
        self.service_records.entries()
    }

    /// How many sign-ins are remembered at most.
    pub closed spec fn auth_capacity(self) -> nat {
        self.auth.capacity()
    }

    /// How many requests for statistics are remembered at most.
    pub closed spec fn service_record_capacity(self) -> nat {
        self.service_records.capacity()
    }

    /// For how many seconds a sign-in is remembered.
    pub closed spec fn auth_ttl(self) -> u64 {
        self.auth.ttl()
    }

    /// For how many seconds a request for statistics is remembered.
    pub closed spec fn service_record_ttl(self) -> u64 {
        self.service_records.ttl()
    }

    /// Two empty caches: ten sessions for four hours each, a thousand pages of
    /// statistics for ten minutes each.
    pub fn default() -> (made: Self)
        ensures
            made.auth_entries() == no_entries(),
            made.service_record_entries() == no_entries(),
            made.auth_capacity() == AUTH_CACHE_CAPACITY,
            made.auth_ttl() == AUTH_CACHE_TTL_SECS,
            made.service_record_capacity() == SERVICE_RECORD_CACHE_CAPACITY,
            made.service_record_ttl() == SERVICE_RECORD_CACHE_TTL_SECS,
    {
        InMemoryCache {
            auth: ResultCache::new(AUTH_CACHE_CAPACITY, AUTH_CACHE_TTL_SECS),
            service_records: ResultCache::new(
                SERVICE_RECORD_CACHE_CAPACITY,
                SERVICE_RECORD_CACHE_TTL_SECS,
            ),
        }
    }

    /// Decides what a lookup for a sign-in comes to, given what the cache handed
    /// back: a copy of the outcome that was found, success or failure alike, or
    /// `None` where nothing was found and the sign-in has to be made.
    pub fn auth_hit(found: Option<&CacheValue>) -> (hit: Option<Result<GetAuthResponse, Error>>)
        ensures
            hit_view(hit) == auth_hit_of(option_view(found)),
    {
        match found {
            Some(CacheValue::Auth(outcome)) => Some(clone_auth_outcome(outcome)),
            _ => None,
        }
    }

    /// Decides what a lookup for a request for statistics comes to, given what the
    /// cache handed back: a copy of the outcome that was found, success or failure
    /// alike, or `None` where nothing was found and the request has to be made.
    pub fn service_record_hit(found: Option<&CacheValue>) -> (hit: Option<
        Result<GetServiceRecordResponse, Error>,
    >)
        ensures
            hit_view(hit) == service_record_hit_of(option_view(found)),
    {
        match found {
            Some(CacheValue::ServiceRecord(outcome)) => Some(clone_service_record_outcome(outcome)),
            _ => None,
        }
    }

    /// The outcome that is remembered for the sign-in `req`: what to answer
    /// without signing in again, or `None` where the sign-in has to be made.
    pub fn get_auth(&self, req: &GetAuthRequest) -> (hit: Option<Result<GetAuthResponse, Error>>)
        ensures
            hit matches Some(outcome) ==> served(
                self.auth_entries(),
                CacheKeyView::Auth(req@),
                Some(CacheValueView::Auth(outcome_view(outcome))),
            ),
    {
        let key = CacheKey::Auth(req.clone());
        Self::auth_hit(self.auth.lookup(&key))
    }

    /// Remembers what the sign-in `req` came to, success or failure.
    pub fn put_auth(&mut self, req: &GetAuthRequest, outcome: &Result<GetAuthResponse, Error>)
        ensures
            stored(
                old(self).auth_entries(),
                final(self).auth_entries(),
                CacheKeyView::Auth(req@),
                CacheValueView::Auth(outcome_view(*outcome)),
                old(self).auth_capacity(),
            ),
            final(self).service_record_entries() == old(self).service_record_entries(),
            final(self).auth_capacity() == old(self).auth_capacity(),
            final(self).service_record_capacity() == old(self).service_record_capacity(),
    {
        self.auth.store(CacheKey::Auth(req.clone()), CacheValue::Auth(clone_auth_outcome(outcome)));
    }

    /// The outcome that is remembered for the request `req` within the session
    /// `auth`: what to answer without asking the site again, or `None` where the
    /// request has to be made.
    pub fn get_service_record(&self, auth: &GetAuthResponse, req: &GetServiceRecordRequest) -> (hit:
        Option<Result<GetServiceRecordResponse, Error>>)
        ensures
            hit matches Some(outcome) ==> served(
                self.service_record_entries(),
                CacheKeyView::ServiceRecord(auth@, req@),
                Some(CacheValueView::ServiceRecord(outcome_view(outcome))),
            ),
    {
        let key = CacheKey::ServiceRecord(auth.clone(), req.clone());
        Self::service_record_hit(self.service_records.lookup(&key))
    }

    /// Remembers what the request `req` within the session `auth` came to, success
    /// or failure.
    pub fn put_service_record(
        &mut self,
        auth: &GetAuthResponse,
        req: &GetServiceRecordRequest,
        outcome: &Result<GetServiceRecordResponse, Error>,
    )
        ensures
            stored(
                old(self).service_record_entries(),
                final(self).service_record_entries(),
                CacheKeyView::ServiceRecord(auth@, req@),
                CacheValueView::ServiceRecord(outcome_view(*outcome)),
                old(self).service_record_capacity(),
            ),
            final(self).auth_entries() == old(self).auth_entries(),
            final(self).auth_capacity() == old(self).auth_capacity(),
            final(self).service_record_capacity() == old(self).service_record_capacity(),
    {
        self.service_records.store(
            CacheKey::ServiceRecord(auth.clone(), req.clone()),
            CacheValue::ServiceRecord(clone_service_record_outcome(outcome)),
        );
    }
}

} // verus!
