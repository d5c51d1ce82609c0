//! Requests to the translation service, and how its answers are judged.

use vstd::prelude::*;
use vstd::string::*;

verus! {

/// Where every request goes: the path is put behind this.
pub const BASE_URL: &'static str = "https://api.phraseapp.com";

/// The credential that every request carries.
#[derive(Debug, PartialEq, Eq)]
pub struct Token(pub String);

impl View for Token {
    type V = Seq<char>;

    open spec fn view(&self) -> Seq<char> {
        self.0@
    }
}

/// How a request is made: a plain read, or a form with its fields in the
/// order in which they were given.
#[derive(Debug, PartialEq, Eq)]
pub enum Method {
    Get,
    Post(Vec<(String, String)>),
}

/// What a `Method` stands for.
pub ghost enum Verb {
    Get,
    Post(Seq<(Seq<char>, Seq<char>)>),
}

impl View for Method {
    type V = Verb;

    open spec fn view(&self) -> Verb {
        match self {
            Method::Get => Verb::Get,
            Method::Post(params) => Verb::Post(params.deep_view()),
        }
    }
}

impl DeepView for Method {
    type V = Verb;

    open spec fn deep_view(&self) -> Verb {
        self@
    }
}

/// The word by which a method goes on the wire and in messages.
pub open spec fn verb_name(verb: Verb) -> Seq<char> {
    match verb {
        Verb::Get => "GET"@,
        Verb::Post(_) => "POST"@,
    }
}

impl Method {
    /// The method's name, `GET` or `POST`.
    pub fn name(&self) -> (name: &'static str)
        ensures
            name@ == verb_name(self@),
    {
        match self {
            Method::Get => "GET",
            Method::Post(_) => "POST",
        }
    }
}

/// A request, ready to be sent.
#[derive(Debug, PartialEq, Eq)]
pub struct Request {
    pub method: Method,
    pub path: String,
    /// The absolute address.
    pub url: String,
    /// The value of the `Authorization` header.
    pub authorization: String,
}

/// What a `Request` stands for.
pub ghost struct RequestView {
    pub method: Verb,
    pub path: Seq<char>,
    pub url: Seq<char>,
    pub authorization: Seq<char>,
}

impl View for Request {
    type V = RequestView;

    open spec fn view(&self) -> RequestView {
        RequestView {
            method: self.method@,
            path: self.path@,
            url: self.url@,
            authorization: self.authorization@,
        }
    }
}

impl DeepView for Request {
    type V = RequestView;

    open spec fn deep_view(&self) -> RequestView {
        self@
    }
}

/// The absolute address of a path: the path behind the service's base.
pub open spec fn url_of(path: Seq<char>) -> Seq<char> {
    BASE_URL@ + path
}

/// The `Authorization` header for a credential.
pub open spec fn authorization_of(token: Seq<char>) -> Seq<char> {
    "token "@ + token
}

/// The request that is made for a method, a path and a credential.
pub open spec fn request_for(method: Verb, path: Seq<char>, token: Seq<char>) -> RequestView {
    RequestView { method, path, url: url_of(path), authorization: authorization_of(token) }
}

/// Prepares the request for `path`: its address, and the credential in its
/// `Authorization` header, whatever the method.
pub fn phrase_req(method: Method, path: &str, token: &Token) -> (request: Request)
    ensures
        request@ == request_for(method@, path@, token@),
{
    let mut url = String::from_str(BASE_URL);
    url.append(path);
    let mut authorization = String::from_str("token ");
    authorization.append(token.0.as_str());
    Request { method, path: path.to_owned(), url, authorization }
}

/// Whether a status says that the request was carried out: 200 to 299.
pub open spec fn is_success(status: u16) -> bool {
    200 <= status < 300
}

/// A request that the service answered with a status outside 200 to 299.
#[derive(Debug, PartialEq, Eq)]
pub struct RequestFailed {
    pub path: String,
    pub method: Method,
    pub status: u16,
}

/// What a `RequestFailed` stands for.
pub ghost struct RequestFailedView {
    pub path: Seq<char>,
    pub method: Verb,
    pub status: u16,
}

impl View for RequestFailed {
    type V = RequestFailedView;

    open spec fn view(&self) -> RequestFailedView {
        RequestFailedView { path: self.path@, method: self.method@, status: self.status }
    }
}

impl DeepView for RequestFailed {
    type V = RequestFailedView;

    open spec fn deep_view(&self) -> RequestFailedView {
        self@
    }
}

/// The failure that `status` makes of a request.
pub open spec fn failure_of(request: RequestView, status: u16) -> RequestFailedView {
    RequestFailedView { path: request.path, method: request.method, status }
}

/// Judges the status with which `request` was answered: a status from 200
/// to 299 passes, any other is a failure that names the request's path and
/// method.
pub fn check_status(request: Request, status: u16) -> (checked: Result<(), RequestFailed>)
    ensures
        checked is Ok <==> is_success(status),
        checked matches Err(e) ==> e@ == failure_of(request@, status),
{
    if 200 <= status && status < 300 {
        Ok(())
    } else {
        Err(RequestFailed { path: request.path, method: request.method, status })
    }
}

} // verus!
