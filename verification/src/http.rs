//! What goes to the transport and what comes back from it.
//!
//! The client never performs a call itself. Each operation describes the one
//! request it stands for; the caller's transport sends it and hands back a
//! [`Reply`], or the description of why the call could not complete.

use vstd::prelude::*;
use crate::json::{value_view, Json};

verus! {

/// The two methods the API is reached with.
#[derive(Debug, Clone, Copy, PartialEq, Eq, Structural)]
pub enum Method {
    Get,
    Post,
}

/// Credentials for HTTP Basic authentication.
#[derive(Debug, Clone, PartialEq, Eq)]
pub struct BasicAuth {
    pub username: String,
    pub password: Option<String>,
}

/// One outbound call: method, full URL, credentials and, for a create
/// operation, the JSON body.
#[derive(Debug, Clone, PartialEq)]
pub struct Request {
    pub method: Method,
    pub url: String,
    pub auth: BasicAuth,
    pub body: Option<serde_json::Value>,
}

/// [`Request`] as plain mathematical values.
pub struct RequestView {
    pub method: Method,
    pub url: Seq<char>,
    pub username: Seq<char>,
    pub password: Option<Seq<char>>,
    pub body: Option<Json>,
}

impl View for Request {
    type V = RequestView;

    open spec fn view(&self) -> RequestView {
        RequestView {
            method: self.method,
            url: self.url@,
            username: self.auth.username@,
            password: match self.auth.password {
                Some(p) => Some(p@),
                None => None,
            },
            body: match self.body {
                Some(v) => Some(value_view(v)),
                None => None,
            },
        }
    }
}

/// What the transport received: the status code and the body as text.
#[derive(Debug, Clone, PartialEq, Eq)]
pub struct Reply {
    pub status: u16,
    pub body: String,
}

/// Whether a status code counts as success: 200 up to 299.
pub open spec fn is_success(status: u16) -> bool {
    200 <= status <= 299
}

impl Reply {
    /// Whether the status code counts as success.
    pub fn is_success(&self) -> (ok: bool)
        ensures
            ok == is_success(self.status),
    {
        200 <= self.status && self.status <= 299
    }
}

} // verus!
