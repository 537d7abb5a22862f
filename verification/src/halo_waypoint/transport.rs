use vstd::prelude::*;
use http::Uri;
use crate::text::str_eq;
use crate::text::text_views;
use crate::views::option_view;

verus! {

/// `http::Uri`, a URI that was accepted: carried through, never looked into.
#[verifier::external_type_specification]
#[verifier::external_body]
pub struct ExUri(Uri);

/// The URI that `http` reads out of `text`, if it reads one.
pub uninterp spec fn uri_of(text: Seq<char>) -> Option<Uri>;

/// The URI that `http` builds from a scheme, an authority and a path with its
/// query, if it builds one.
pub uninterp spec fn uri_from_parts(
    scheme: Seq<char>,
    authority: Seq<char>,
    path_and_query: Seq<char>,
) -> Option<Uri>;

/// Calls `http::Uri::try_from` on the text. Not proved: that the outcome depends
/// on the text alone.
#[verifier::external_body]
pub(crate) fn parse_uri(text: &str) -> (uri: Option<Uri>)
    ensures
        uri == uri_of(text@),
{
    Uri::try_from(text).ok()
}

/// Calls `http::uri::Builder::build` after handing the builder the three parts.
/// Not proved: that the outcome depends on the three texts alone.
#[verifier::external_body]
pub(crate) fn build_uri(scheme: &str, authority: &str, path_and_query: &str) -> (uri: Option<Uri>)
    ensures
        uri == uri_from_parts(scheme@, authority@, path_and_query@),
{
    http::uri::Builder::new().scheme(scheme).authority(authority).path_and_query(
        path_and_query,
    ).build().ok()
}

/// The copy that `http::Uri` makes of itself is the same URI.
pub assume_specification[ <Uri as Clone>::clone ](uri: &Uri) -> (copy: Uri)
    ensures
        copy == *uri,
;

/// The two methods the library asks for.
#[derive(Clone, Copy, Debug, PartialEq, Eq, Structural)]
pub enum Method {
    Get,
    Post,
}

/// A header of a request to send: its name in lower case, and its value.
#[derive(Debug, PartialEq, Eq)]
pub struct Header {
    pub name: String,
    pub value: String,
}

impl View for Header {
    type V = (Seq<char>, Seq<char>);

    open spec fn view(&self) -> (Seq<char>, Seq<char>) {
        (self.name@, self.value@)
    }
}

impl Header {
    pub fn new(name: &str, value: String) -> (made: Self)
        ensures
            made@ == (name@, value@),
    {
        Header { name: name.to_owned(), value }
    }
}

impl Clone for Header {
    fn clone(&self) -> (copy: Self)
        ensures
            copy@ == self@,
    {
        Header { name: self.name.clone(), value: self.value.clone() }
    }
}

/// A request to send.
#[derive(Debug)]
pub struct Request {
    pub method: Method,
    pub uri: Uri,
    pub headers: Vec<Header>,
    pub body: String,
}

/// The mathematical value of a [`Request`].
pub struct RequestView {
    pub method: Method,
    pub uri: Uri,
    pub headers: Seq<(Seq<char>, Seq<char>)>,
    pub body: Seq<char>,
}

/// The mathematical values of the headers, in order.
pub open spec fn header_views(headers: Seq<Header>) -> Seq<(Seq<char>, Seq<char>)> {
    headers.map_values(|header: Header| header@)
}

impl View for Request {
    type V = RequestView;

    open spec fn view(&self) -> RequestView {
        RequestView {
            method: self.method,
            uri: self.uri,
            headers: header_views(self.headers@),
            body: self.body@,
        }
    }
}

/// A header of a response that came in: its name in lower case, and its value
/// where that value is readable text.
#[derive(Debug, PartialEq, Eq)]
pub struct ReceivedHeader {
    pub name: String,
    pub value: Option<String>,
}

impl View for ReceivedHeader {
    type V = (Seq<char>, Option<Seq<char>>);

    open spec fn view(&self) -> (Seq<char>, Option<Seq<char>>) {
        (self.name@, option_view(self.value))
    }
}

/// A response that came in, with its body as text.
#[derive(Debug, PartialEq, Eq)]
pub struct Response {
    pub status: u16,
    pub headers: Vec<ReceivedHeader>,
    pub body: String,
}

/// The mathematical value of a [`Response`].
pub struct ResponseView {
    pub status: u16,
    pub headers: Seq<(Seq<char>, Option<Seq<char>>)>,
    pub body: Seq<char>,
}

impl View for Response {
    type V = ResponseView;

    open spec fn view(&self) -> ResponseView {
        ResponseView {
            status: self.status,
            headers: self.headers@.map_values(|header: ReceivedHeader| header@),
            body: self.body@,
        }
    }
}

/// The readable values of the headers called `name`, in order.
pub open spec fn text_values(headers: Seq<(Seq<char>, Option<Seq<char>>)>, name: Seq<char>) -> Seq<
    Seq<char>,
> {
    headers.filter_map(
        |header: (Seq<char>, Option<Seq<char>>)|
            if header.0 == name {
                header.1
            } else {
                None
            },
    )
}

/// The value of the first header called `name`, where there is such a header and
/// its value is readable.
pub open spec fn first_value(headers: Seq<(Seq<char>, Option<Seq<char>>)>, name: Seq<char>) -> Option<
    Seq<char>,
>
    decreases headers.len(),
{
    if headers.len() == 0 {
        None
    } else if headers[0].0 == name {
        headers[0].1
    } else {
        first_value(headers.drop_first(), name)
    }
}

/// Looking for the first header called `name` may skip the headers that are
/// called otherwise.
pub proof fn lemma_first_value_skip(
    headers: Seq<(Seq<char>, Option<Seq<char>>)>,
    name: Seq<char>,
    n: int,
)
    requires
        0 <= n <= headers.len(),
        forall|i: int| 0 <= i < n ==> (#[trigger] headers[i]).0 != name,
    ensures
        first_value(headers, name) == first_value(headers.skip(n), name),
    decreases n,
{
    if n == 0 {
        assert(headers.skip(0) =~= headers);
    } else {
        assert(headers[0].0 != name);
        let rest = headers.drop_first();
        assert forall|i: int| 0 <= i < n - 1 implies (#[trigger] rest[i]).0 != name by {
            assert(rest[i] == headers[i + 1]);
        }
        lemma_first_value_skip(rest, name, n - 1);
        assert(rest.skip(n - 1) =~= headers.skip(n));
    }
}

impl Response {
    pub fn new(status: u16, headers: Vec<ReceivedHeader>, body: String) -> (made: Self)
        ensures
            made.status == status,
            made.headers == headers,
            made.body == body,
    {
        Response { status, headers, body }
    }

    /// The readable values of the headers called `name`, in the order in which
    /// they came.
    pub fn header_values(&self, name: &str) -> (values: Vec<String>)
        ensures
            text_views(values@) == text_values(self@.headers, name@),
    {
        let ghost headers = self@.headers;
        let ghost pick = |header: (Seq<char>, Option<Seq<char>>)|
            if header.0 == name@ {
                header.1
            } else {
                None
            };
        let mut values: Vec<String> = Vec::new();
        let mut i: usize = 0;
        while i < self.headers.len()
            invariant
                i <= self.headers.len(),
                headers == self@.headers,
                pick == |header: (Seq<char>, Option<Seq<char>>)|
                    if header.0 == name@ {
                        header.1
                    } else {
                        None
                    },
                text_views(values@) == headers.take(i as int).filter_map(pick),
            decreases self.headers.len() - i,
        {
            let ghost before = text_views(values@);
            assert(headers.take(i + 1).drop_last() =~= headers.take(i as int));
            assert(headers.take(i + 1).last() == self.headers@[i as int]@);
            let header = &self.headers[i];
            if str_eq(header.name.as_str(), name) {
                match &header.value {
                    Some(value) => {
                        values.push(value.clone());
                        assert(text_views(values@) =~= before + seq![value@]);
                    },
                    None => {},
                }
            }
            i += 1;
        }
        assert(headers.take(i as int) =~= headers);
        values
    }

    /// The value of the first header called `name`, where there is such a header
    /// and its value is readable.
    pub fn first_header(&self, name: &str) -> (value: Option<String>)
        ensures
            option_view(value) == first_value(self@.headers, name@),
    {
        let ghost headers = self@.headers;
        let mut i: usize = 0;
        while i < self.headers.len()
            invariant
                i <= self.headers.len(),
                headers == self@.headers,
                forall|j: int| 0 <= j < i ==> (#[trigger] headers[j]).0 != name@,
            decreases self.headers.len() - i,
        {
            let header = &self.headers[i];
            if str_eq(header.name.as_str(), name) {
                proof {
                    lemma_first_value_skip(headers, name@, i as int);
                    assert(headers.skip(i as int)[0] == self.headers@[i as int]@);
                }
                return match &header.value {
                    Some(value) => Some(value.clone()),
                    None => None,
                };
            }
            i += 1;
        }
        proof {
            lemma_first_value_skip(headers, name@, i as int);
            assert(headers.skip(i as int).len() == 0);
        }
        None
    }
}

} // verus!
