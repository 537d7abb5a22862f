use vstd::prelude::*;
use http::Uri;
use crate::error::outcome_view;
use crate::error::site_error;
use crate::error::Error;
use crate::error::ErrorView;
use crate::error::HaloWaypointError;
use crate::error::HaloWaypointErrorView;
use crate::halo_waypoint::transport::first_value;
use crate::halo_waypoint::transport::parse_uri;
use crate::halo_waypoint::transport::text_values;
use crate::halo_waypoint::transport::uri_of;
use crate::halo_waypoint::transport::Header;
use crate::halo_waypoint::transport::Method;
use crate::halo_waypoint::transport::Request;
use crate::halo_waypoint::transport::RequestView;
use crate::halo_waypoint::transport::Response;
use crate::halo_waypoint::transport::ResponseView;
use crate::pattern::group;
use crate::pattern::group_of;
use crate::text::clone_texts;
use crate::text::join;
use crate::text::joined;
use crate::text::text_views;
use crate::views::option_view;

verus! {

/// Where the login form is fetched from.
pub const LOGIN_URL: &'static str =
    "https://login.live.com/oauth20_authorize.srf?client_id=000000004C0BD2F1&scope=xbox.basic+xbox.offline_access&response_type=code&redirect_uri=https:%2f%2fwww.halowaypoint.com%2fauth%2fcallback&locale=en-us&display=touch&state=https%253a%252f%252fwww.halowaypoint.com%252fen-us";

/// The name and value at the head of a `Set-Cookie` header.
pub const COOKIE_PATTERN: &'static str = "^([^;]+);";

/// The hidden field of the login form that holds the anti-forgery token.
pub const PPFT_PATTERN: &'static str =
    "<input type=\"hidden\" name=\"PPFT\" id=\"i0327\" value=\"([^\"]+)\"/>";

/// The address the login form posts to.
pub const URL_POST_PATTERN: &'static str = "urlPost:'([^']+)'";

/// The session cookie at the head of a `Set-Cookie` header.
pub const AUTH_PATTERN: &'static str = "^(Auth=[^;]+);";

/// The login and password of the account the library signs in with.
#[derive(PartialEq, Eq, Hash, Debug)]
pub struct GetAuthRequest {
    login: String,
    password: String,
}

/// The mathematical value of a [`GetAuthRequest`].
pub struct GetAuthRequestView {
    pub login: Seq<char>,
    pub password: Seq<char>,
}

impl View for GetAuthRequest {
    type V = GetAuthRequestView;

    closed spec fn view(&self) -> GetAuthRequestView {
        GetAuthRequestView { login: self.login@, password: self.password@ }
    }
}

impl Clone for GetAuthRequest {
    fn clone(&self) -> (copy: Self)
        ensures
            copy@ == self@,
    {
        GetAuthRequest { login: self.login.clone(), password: self.password.clone() }
    }
}

impl GetAuthRequest {
    pub fn new(login: String, password: String) -> (made: Self)
        ensures
            made@ == (GetAuthRequestView { login: login@, password: password@ }),
    {
        Self { login, password }
    }
}

/// The first step of signing in: fetching the login form.
pub struct GetAuthRequestGetForm;

impl GetAuthRequestGetForm {
    /// What the request for the login form looks like, where `uri` is its address.
    pub open spec fn request_to(uri: Uri) -> RequestView {
        RequestView { method: Method::Get, uri, headers: Seq::empty(), body: Seq::empty() }
    }

    /// The request for the login form, if the address of the form makes a URI.
    pub open spec fn request() -> Option<RequestView> {
        match uri_of(LOGIN_URL@) {
            Some(uri) => Some(GetAuthRequestGetForm::request_to(uri)),
            None => None,
        }
    }

    /// The request for the login form: `None` only where the address of the form
    /// is not accepted as a URI.
    pub fn to_request(&self) -> (request: Option<Request>)
        ensures
            option_view(request) == GetAuthRequestGetForm::request(),
    {
        match parse_uri(LOGIN_URL) {
            Some(uri) => {
                let request = Request {
                    method: Method::Get,
                    uri,
                    headers: Vec::new(),
                    body: String::new(),
                };
                assert(request@.headers =~= Seq::empty());
                Some(request)
            },
            None => None,
        }
    }
}

/// What the login form holds: where to post to, the anti-forgery token, and the
/// cookies to send along.
#[derive(Debug)]
pub struct GetAuthRequestForm {
    uri: Uri,
    ppft: String,
    cookies: Vec<String>,
}

/// The mathematical value of a [`GetAuthRequestForm`].
pub struct GetAuthRequestFormView {
    pub uri: Uri,
    pub ppft: Seq<char>,
    pub cookies: Seq<Seq<char>>,
}

impl View for GetAuthRequestForm {
    type V = GetAuthRequestFormView;

    closed spec fn view(&self) -> GetAuthRequestFormView {
        GetAuthRequestFormView {
            uri: self.uri,
            ppft: self.ppft@,
            cookies: text_views(self.cookies@),
        }
    }
}

impl Clone for GetAuthRequestForm {
    fn clone(&self) -> (copy: Self)
        ensures
            copy@ == self@,
    {
        GetAuthRequestForm {
            uri: self.uri.clone(),
            ppft: self.ppft.clone(),
            cookies: clone_texts(&self.cookies),
        }
    }
}

/// The group that `pattern` captures at the head of each text, for the texts where
/// it captures one.
pub open spec fn captured(pattern: Seq<char>, texts: Seq<Seq<char>>) -> Seq<Seq<char>> {
    texts.filter_map(|text: Seq<char>| group_of(pattern, text, 1))
}

/// The first group that `pattern` captures in one of the texts.
pub open spec fn first_captured(pattern: Seq<char>, texts: Seq<Seq<char>>) -> Option<Seq<char>> {
    if captured(pattern, texts).len() > 0 {
        Some(captured(pattern, texts)[0])
    } else {
        None
    }
}

/// The groups that `pattern` captures in the texts, text by text, leaving out the
/// texts in which it captures none.
pub fn capture_each(pattern: &str, texts: &Vec<String>) -> (found: Vec<String>)
    ensures
        text_views(found@) == captured(pattern@, text_views(texts@)),
{
    let ghost views = text_views(texts@);
    let ghost pick = |text: Seq<char>| group_of(pattern@, text, 1);
    let mut found: Vec<String> = Vec::new();
    let mut i: usize = 0;
    while i < texts.len()
        invariant
            i <= texts.len(),
            views == text_views(texts@),
            pick == |text: Seq<char>| group_of(pattern@, text, 1),
            text_views(found@) == views.take(i as int).filter_map(pick),
        decreases texts.len() - i,
    {
        let ghost before = text_views(found@);
        assert(views.take(i + 1).drop_last() =~= views.take(i as int));
        assert(views.take(i + 1).last() == texts@[i as int]@);
        match group(pattern, texts[i].as_str(), 1) {
            Some(part) => {
                found.push(part);
                assert(text_views(found@) =~= before + seq![part@]);
            },
            None => {},
        }
        i += 1;
    }
    assert(views.take(i as int) =~= views);
    found
}

impl GetAuthRequestForm {
    /// What comes of a response to the request for the login form, given what was
    /// found in it: the form, where the status is 200 and both the token and the
    /// address are there; else the body, as an error.
    pub open spec fn assembled(
        status: u16,
        body: Seq<char>,
        cookies: Seq<Seq<char>>,
        ppft: Option<Seq<char>>,
        uri: Option<Uri>,
    ) -> Result<GetAuthRequestFormView, ErrorView> {
        if status == 200 && ppft is Some && uri is Some {
            Ok(GetAuthRequestFormView { uri: uri->0, ppft: ppft->0, cookies })
        } else {
            Err(site_error(HaloWaypointErrorView::Http(body)))
        }
    }

    /// The address the form posts to, as the body names it.
    pub open spec fn post_address(body: Seq<char>) -> Option<Uri> {
        match group_of(URL_POST_PATTERN@, body, 1) {
            Some(text) => uri_of(text),
            None => None,
        }
    }

    /// What comes of a response to the request for the login form.
    pub open spec fn read(response: ResponseView) -> Result<GetAuthRequestFormView, ErrorView> {
        GetAuthRequestForm::assembled(
            response.status,
            response.body,
            captured(COOKIE_PATTERN@, text_values(response.headers, "set-cookie"@)),
            group_of(PPFT_PATTERN@, response.body, 1),
            GetAuthRequestForm::post_address(response.body),
        )
    }

    fn new(uri: Uri, ppft: String, cookies: Vec<String>) -> (made: Self)
        ensures
            made@ == (GetAuthRequestFormView {
                uri,
                ppft: ppft@,
                cookies: text_views(cookies@),
            }),
    {
        Self { uri, ppft, cookies }
    }

    /// Decides what a response to the request for the login form comes to, given
    /// what was found in it.
    pub fn assemble(
        status: u16,
        body: String,
        cookies: Vec<String>,
        ppft: Option<String>,
        uri: Option<Uri>,
    ) -> (outcome: Result<Self, Error>)
        ensures
            outcome_view(outcome) == GetAuthRequestForm::assembled(
                status,
                body@,
                text_views(cookies@),
                option_view(ppft),
                uri,
            ),
    {
        if status == 200 {
            match (ppft, uri) {
                (Some(ppft), Some(uri)) => Ok(Self::new(uri, ppft, cookies)),
                _ => Err(Error::site(HaloWaypointError::Http(body))),
            }
        } else {
            Err(Error::site(HaloWaypointError::Http(body)))
        }
    }

    /// Reads the login form out of the response to the request for it.
    pub fn try_from_response(res: Response) -> (outcome: Result<Self, Error>)
        ensures
            outcome_view(outcome) == GetAuthRequestForm::read(res@),
    {
        let cookies = capture_each(COOKIE_PATTERN, &res.header_values("set-cookie"));
        let ppft = group(PPFT_PATTERN, res.body.as_str(), 1);
        let uri = match group(URL_POST_PATTERN, res.body.as_str(), 1) {
            Some(text) => parse_uri(text.as_str()),
            None => None,
        };
        Self::assemble(res.status, res.body, cookies, ppft, uri)
    }

    pub fn uri(&self) -> (uri: Uri)
        ensures
            uri == self@.uri,
    {
        self.uri.clone()
    }

    pub fn ppft(&self) -> (ppft: String)
        ensures
            ppft@ == self@.ppft,
    {
        self.ppft.clone()
    }

    pub fn cookies(&self) -> (cookies: Vec<String>)
        ensures
            text_views(cookies@) == self@.cookies,
    {
        clone_texts(&self.cookies)
    }
}

/// The second step of signing in: posting the credentials to the login form.
#[derive(Debug)]
pub struct GetAuthRequestPostForm {
    req: GetAuthRequest,
    form: GetAuthRequestForm,
}

impl GetAuthRequestPostForm {
    /// The credentials that are posted.
    pub closed spec fn credentials(&self) -> GetAuthRequestView {
        self.req@
    }

    /// The form that is posted to.
    pub closed spec fn form(&self) -> GetAuthRequestFormView {
        self.form@
    }

    /// The body that posts `credentials` with the token of `form`.
    pub open spec fn body_of(credentials: GetAuthRequestView, form: GetAuthRequestFormView) -> Seq<
        char,
    > {
        "login="@ + credentials.login + "&passwd="@ + credentials.password + "&PPFT="@ + form.ppft
    }

    /// The request that posts `credentials` to `form`.
    pub open spec fn request_of(
        credentials: GetAuthRequestView,
        form: GetAuthRequestFormView,
    ) -> RequestView {
        RequestView {
            method: Method::Post,
            uri: form.uri,
            headers: seq![
                ("cookie"@, joined(form.cookies, ";"@)),
                ("content-type"@, "application/x-www-form-urlencoded"@),
            ],
            body: GetAuthRequestPostForm::body_of(credentials, form),
        }
    }

    pub fn new(req: &GetAuthRequest, form: &GetAuthRequestForm) -> (made: Self)
        ensures
            made.credentials() == req@,
            made.form() == form@,
    {
        Self { req: req.clone(), form: form.clone() }
    }

    /// The request that posts the credentials to the form.
    pub fn to_request(&self) -> (request: Request)
        ensures
            request@ == GetAuthRequestPostForm::request_of(self.credentials(), self.form()),
    {
        let mut body = "login=".to_owned();
        body.append(self.req.login.as_str());
        body.append("&passwd=");
        body.append(self.req.password.as_str());
        body.append("&PPFT=");
        body.append(self.form.ppft.as_str());
        let mut headers: Vec<Header> = Vec::new();
        headers.push(Header::new("cookie", join(&self.form.cookies, ";")));
        headers.push(Header::new("content-type", "application/x-www-form-urlencoded".to_owned()));
        let request = Request { method: Method::Post, uri: self.form.uri.clone(), headers, body };
        assert(request@.headers =~= GetAuthRequestPostForm::request_of(
            self.credentials(),
            self.form(),
        ).headers);
        request
    }
}

/// The third step of signing in: following the redirect that answers the post.
#[derive(Debug)]
pub struct GetAuthRequestRedirect {
    location: Uri,
}

impl Clone for GetAuthRequestRedirect {
    fn clone(&self) -> (copy: Self)
        ensures
            copy.target() == self.target(),
    {
        GetAuthRequestRedirect { location: self.location.clone() }
    }
}

impl GetAuthRequestRedirect {
    /// Where the redirect leads.
    pub closed spec fn target(&self) -> Uri {
        self.location
    }

    /// What comes of a response to the post, given where it leads: the redirect,
    /// where the status is 302 and the place is there; else the body, as an error.
    pub open spec fn assembled(status: u16, body: Seq<char>, location: Option<Uri>) -> Result<
        Uri,
        ErrorView,
    > {
        if status == 302 && location is Some {
            Ok(location->0)
        } else {
            Err(site_error(HaloWaypointErrorView::Http(body)))
        }
    }

    /// The place a response points to.
    pub open spec fn place(response: ResponseView) -> Option<Uri> {
        match first_value(response.headers, "location"@) {
            Some(text) => uri_of(text),
            None => None,
        }
    }

    /// What comes of a response to the post.
    pub open spec fn read(response: ResponseView) -> Result<Uri, ErrorView> {
        GetAuthRequestRedirect::assembled(
            response.status,
            response.body,
            GetAuthRequestRedirect::place(response),
        )
    }

    /// The outcome with the place of the redirect in place of the redirect.
    pub open spec fn outcome_target(outcome: Result<Self, Error>) -> Result<Uri, ErrorView> {
        match outcome {
            Ok(redirect) => Ok(redirect.target()),
            Err(error) => Err(error@),
        }
    }

    /// What the request that follows a redirect to `uri` looks like.
    pub open spec fn request_to(uri: Uri) -> RequestView {
        RequestView { method: Method::Get, uri, headers: Seq::empty(), body: Seq::empty() }
    }

    fn new(location: Uri) -> (made: Self)
        ensures
            made.target() == location,
    {
        Self { location }
    }

    /// Decides what a response to the post comes to, given where it leads.
    pub fn assemble(status: u16, body: String, location: Option<Uri>) -> (outcome: Result<
        Self,
        Error,
    >)
        ensures
            GetAuthRequestRedirect::outcome_target(outcome) == GetAuthRequestRedirect::assembled(
                status,
                body@,
                location,
            ),
    {
        if status == 302 {
            match location {
                Some(location) => Ok(Self::new(location)),
                None => Err(Error::site(HaloWaypointError::Http(body))),
            }
        } else {
            Err(Error::site(HaloWaypointError::Http(body)))
        }
    }

    /// Reads the redirect out of the response to the post.
    pub fn try_from_response(res: Response) -> (outcome: Result<Self, Error>)
        ensures
            GetAuthRequestRedirect::outcome_target(outcome) == GetAuthRequestRedirect::read(res@),
    {
        let location = match res.first_header("location") {
            Some(text) => parse_uri(text.as_str()),
            None => None,
        };
        Self::assemble(res.status, res.body, location)
    }

    pub fn location(&self) -> (location: Uri)
        ensures
            location == self.target(),
    {
        self.location.clone()
    }

    /// The request that follows the redirect.
    pub fn to_request(&self) -> (request: Request)
        ensures
            request@ == GetAuthRequestRedirect::request_to(self.target()),
    {
        let request = Request {
            method: Method::Get,
            uri: self.location.clone(),
            headers: Vec::new(),
            body: String::new(),
        };
        assert(request@.headers =~= Seq::empty());
        request
    }
}

/// The session cookie that signing in ends with.
#[derive(Debug, PartialEq, Eq, Hash)]
pub struct GetAuthResponse {
    auth_header: String,
}

impl View for GetAuthResponse {
    type V = Seq<char>;

    closed spec fn view(&self) -> Seq<char> {
        self.auth_header@
    }
}

impl Clone for GetAuthResponse {
    fn clone(&self) -> (copy: Self)
        ensures
            copy@ == self@,
    {
        GetAuthResponse { auth_header: self.auth_header.clone() }
    }
}

impl GetAuthResponse {
    /// What comes of a response to the request that follows the redirect, given
    /// the session cookie found in it: the cookie, where the status is 302 and the
    /// cookie is there; else the body, as an error.
    pub open spec fn assembled(status: u16, body: Seq<char>, auth_header: Option<Seq<char>>) -> Result<
        Seq<char>,
        ErrorView,
    > {
        if status == 302 && auth_header is Some {
            Ok(auth_header->0)
        } else {
            Err(site_error(HaloWaypointErrorView::Http(body)))
        }
    }

    /// What comes of a response to the request that follows the redirect: the
    /// session cookie is looked for at the head of each `Set-Cookie` header, and
    /// the first one found counts.
    pub open spec fn read(response: ResponseView) -> Result<Seq<char>, ErrorView> {
        GetAuthResponse::assembled(
            response.status,
            response.body,
            first_captured(AUTH_PATTERN@, text_values(response.headers, "set-cookie"@)),
        )
    }

    pub fn new(auth_header: String) -> (made: Self)
        ensures
            made@ == auth_header@,
    {
        Self { auth_header }
    }

    pub fn auth_header(&self) -> (auth_header: String)
        ensures
            auth_header@ == self@,
    {
        self.auth_header.clone()
    }

    /// Decides what a response to the request that follows the redirect comes to,
    /// given the session cookie found in it.
    pub fn assemble(status: u16, body: String, auth_header: Option<String>) -> (outcome: Result<
        Self,
        Error,
    >)
        ensures
            outcome_view(outcome) == GetAuthResponse::assembled(
                status,
                body@,
                option_view(auth_header),
            ),
    {
        if status == 302 {
            match auth_header {
                Some(auth_header) => Ok(Self::new(auth_header)),
                None => Err(Error::site(HaloWaypointError::Http(body))),
            }
        } else {
            Err(Error::site(HaloWaypointError::Http(body)))
        }
    }

    /// Reads the session cookie out of the response to the request that follows
    /// the redirect.
    pub fn try_from_response(res: Response) -> (outcome: Result<Self, Error>)
        ensures
            outcome_view(outcome) == GetAuthResponse::read(res@),
    {
        let mut found = capture_each(AUTH_PATTERN, &res.header_values("set-cookie"));
        let auth_header = if found.len() > 0 {
            Some(found.swap_remove(0))
        } else {
            None
        };
        Self::assemble(res.status, res.body, auth_header)
    }
}

} // verus!
