//! Plain descriptions of the authenticated HTTP requests the client issues.
//!
//! The library never touches the network: it produces a [`HttpRequest`]
//! value whose contract pins the method, URL, bearer token and body, and the
//! embedding binary performs it.

use vstd::prelude::*;

verus! {

/// HTTP methods used against the registry.
#[derive(Clone, Copy, Debug, PartialEq, Eq, Structural)]
pub enum Method {
    Get,
    Post,
    Put,
    Delete,
}

/// One authenticated request, ready to be performed.
///
/// `Authorization: Bearer <bearer_token>` is attached to every request, and
/// `Content-Type: application/json` exactly when `content_type_json` holds.
pub struct HttpRequest {
    pub method: Method,
    pub url: String,
    pub bearer_token: String,
    pub content_type_json: bool,
    pub body: Option<String>,
}

/// The mathematical value of a [`HttpRequest`].
pub struct HttpRequestV {
    pub method: Method,
    pub url: Seq<char>,
    pub bearer_token: Seq<char>,
    pub content_type_json: bool,
    pub body: Option<Seq<char>>,
}

impl View for HttpRequest {
    type V = HttpRequestV;

    open spec fn view(&self) -> HttpRequestV {
        HttpRequestV {
            method: self.method,
            url: self.url@,
            bearer_token: self.bearer_token@,
            content_type_json: self.content_type_json,
            body: self.body.deep_view(),
        }
    }
}

/// A bodyless GET of the given URL.
pub open spec fn get_request_v(url: Seq<char>, bearer: Seq<char>) -> HttpRequestV {
    HttpRequestV {
        method: Method::Get,
        url,
        bearer_token: bearer,
        content_type_json: false,
        body: None,
    }
}

/// A bodyless DELETE of the given URL.
pub open spec fn delete_request_v(url: Seq<char>, bearer: Seq<char>) -> HttpRequestV {
    HttpRequestV {
        method: Method::Delete,
        url,
        bearer_token: bearer,
        content_type_json: false,
        body: None,
    }
}

/// A POST of a JSON body to the given URL.
pub open spec fn post_request_v(url: Seq<char>, bearer: Seq<char>, body: Seq<char>) -> HttpRequestV {
    HttpRequestV {
        method: Method::Post,
        url,
        bearer_token: bearer,
        content_type_json: true,
        body: Some(body),
    }
}

/// A PUT of a JSON body to the given URL.
pub open spec fn put_request_v(url: Seq<char>, bearer: Seq<char>, body: Seq<char>) -> HttpRequestV {
    HttpRequestV {
        method: Method::Put,
        url,
        bearer_token: bearer,
        content_type_json: true,
        body: Some(body),
    }
}

} // verus!
