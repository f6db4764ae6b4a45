use vstd::prelude::*;

use crate::headers::{pairs_of, Header, HeaderPair};

verus! {

/// Every path of an operation is appended to this URL.
pub const BASE_URL: &'static str = "https://sell.app/api/";

/// The HTTP verbs that the API uses.
#[derive(Clone, Copy, Debug, PartialEq, Eq, Structural)]
pub enum Method {
    Get,
    Post,
    Patch,
    Delete,
}

/// What a request is: its verb, its path under [`BASE_URL`], its headers in
/// the order in which they were set, and its body.
pub struct RequestModel {
    pub method: Method,
    pub path: Seq<char>,
    pub headers: Seq<HeaderPair>,
    pub body: Option<Seq<char>>,
}

/// A request ready to be handed to an HTTP client.
#[derive(Clone, Debug, PartialEq, Eq)]
pub struct ApiRequest {
    pub method: Method,
    pub path: String,
    pub headers: Vec<Header>,
    pub body: Option<String>,
}

/// The view of an optional body.
pub open spec fn body_view(body: Option<String>) -> Option<Seq<char>> {
    match body {
        Some(b) => Some(b@),
        None => None,
    }
}

impl View for ApiRequest {
    type V = RequestModel;

    open spec fn view(&self) -> RequestModel {
        RequestModel {
            method: self.method,
            path: self.path@,
            headers: pairs_of(self.headers@),
            body: body_view(self.body),
        }
    }
}

impl ApiRequest {
    /// The full URL of the request.
    pub fn url(&self) -> (r: String)
        ensures
            r@ == BASE_URL@ + self.path@,
    {
        let mut u = String::from_str(BASE_URL);
        u.append(self.path.as_str());
        u
    }
}

} // verus!
