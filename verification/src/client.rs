//! The client: where the API lives and which credential opens it.

use vstd::prelude::*;
use vstd::string::*;
use crate::codec::{read_str, take_str, FromJson};
use crate::error::{result_view, BillplzError, BillplzErrorView, ParseError, ParseErrorView};
use crate::http::{is_success, BasicAuth, Method, Reply, Request, RequestView};
use crate::json::{self, json_parsed, value_view, Json};

verus! {

/// Which Billplz deployment a client talks to.
#[derive(Debug, Clone, Copy, PartialEq, Eq, Structural)]
pub enum Environment {
    Production,
    Staging,
}

/// The host of the live API.
pub open spec fn production_url() -> Seq<char> {
    "https://www.billplz.com"@
}

/// The host of the staging API.
pub open spec fn staging_url() -> Seq<char> {
    "https://www.billplz-sandbox.com"@
}

/// Base endpoint, credential and, unless the endpoint was given by hand, the
/// environment it was chosen for.
#[derive(Debug, Clone)]
pub struct BillplzClient {
    base_url: String,
    api_key: String,
    environment: Option<Environment>,
}

/// [`BillplzClient`] as plain mathematical values.
pub struct ClientView {
    pub base_url: Seq<char>,
    pub api_key: Seq<char>,
    pub environment: Option<Environment>,
}

impl View for BillplzClient {
    type V = ClientView;

    closed spec fn view(&self) -> ClientView {
        ClientView {
            base_url: self.base_url@,
            api_key: self.api_key@,
            environment: self.environment,
        }
    }
}

/// The request of a read operation: a `GET` of `path` below the base
/// endpoint, with the credential as user name and no password.
pub open spec fn read_request(client: ClientView, path: Seq<char>) -> RequestView {
    RequestView {
        method: Method::Get,
        url: client.base_url + path,
        username: client.api_key,
        password: None,
        body: None,
    }
}

/// The request of a create operation: a `POST` of `body` to `path` below the
/// base endpoint, with the credential as user name and no password.
pub open spec fn create_request(client: ClientView, path: Seq<char>, body: Json) -> RequestView {
    RequestView {
        method: Method::Post,
        url: client.base_url + path,
        username: client.api_key,
        password: None,
        body: Some(body),
    }
}

/// The type and message of a structured error, when `j` has the shape
/// `{"error": {"type": string, "message": string}}`.
pub open spec fn error_envelope(j: Json) -> Option<(Seq<char>, Seq<char>)> {
    match j.field("error"@) {
        Some(detail) => match (read_str(detail, "type"@), read_str(detail, "message"@)) {
            (Ok(error_type), Ok(message)) => Some((error_type, message)),
            _ => None,
        },
        None => None,
    }
}

/// What a typed operation makes of a status code and a body.
///
/// A status outside 200 to 299 with a body in the shape of the error envelope
/// is an `Api` error that carries the envelope's type and message. Every
/// other body is decoded as the resource, whatever the status: a body that is
/// no JSON, or not the resource, is a `Parse` error.
pub open spec fn typed_result<T: FromJson>(status: u16, body: Seq<char>) -> Result<
    T::V,
    BillplzErrorView,
> {
    match json_parsed(body) {
        Err(description) => Err(BillplzErrorView::Parse(ParseErrorView::Syntax(description))),
        Ok(j) => if !is_success(status) && error_envelope(j) is Some {
            Err(
                BillplzErrorView::Api {
                    error_type: error_envelope(j)->Some_0.0,
                    message: error_envelope(j)->Some_0.1,
                },
            )
        } else {
            match T::decoded(j) {
                Ok(resource) => Ok(resource),
                Err(fault) => Err(BillplzErrorView::Parse(fault)),
            }
        },
    }
}

/// What a typed operation returns for what the transport handed back.
pub open spec fn typed_outcome<T: FromJson>(reply: Result<Reply, String>) -> Result<
    T::V,
    BillplzErrorView,
> {
    match reply {
        Err(description) => Err(BillplzErrorView::Http(description@)),
        Ok(reply) => typed_result::<T>(reply.status, reply.body@),
    }
}

/// What a passthrough operation returns for what the transport handed back:
/// the body as it came, whatever the status.
pub open spec fn raw_outcome(reply: Result<Reply, String>) -> Result<Seq<char>, BillplzErrorView> {
    match reply {
        Err(description) => Err(BillplzErrorView::Http(description@)),
        Ok(reply) => Ok(reply.body@),
    }
}

/// A reply with a success status whose body holds the resource gives the
/// resource, field for field as the body has it.
pub proof fn lemma_valid_body_is_decoded<T: FromJson>(status: u16, body: Seq<char>)
    requires
        is_success(status),
        json_parsed(body) is Ok,
        T::decoded(json_parsed(body)->Ok_0) is Ok,
    ensures
        typed_result::<T>(status, body) is Ok,
        typed_result::<T>(status, body)->Ok_0 == T::decoded(json_parsed(body)->Ok_0)->Ok_0,
{
}

/// A reply with a failure status whose body has the shape of the error
/// envelope is an `Api` error with the envelope's type and message, as they
/// came.
pub proof fn lemma_envelope_is_api_error<T: FromJson>(
    status: u16,
    body: Seq<char>,
    detail: Json,
    error_type: Seq<char>,
    message: Seq<char>,
)
    requires
        !is_success(status),
        json_parsed(body) is Ok,
        json_parsed(body)->Ok_0.field("error"@) == Some(detail),
        detail.field("type"@) == Some(Json::Str(error_type)),
        detail.field("message"@) == Some(Json::Str(message)),
    ensures
        typed_result::<T>(status, body) is Err,
        typed_result::<T>(status, body)->Err_0 == (BillplzErrorView::Api { error_type, message }),
{
}

/// A reply with a success status whose body is no JSON, or is not the
/// resource, is a `Parse` error.
pub proof fn lemma_invalid_body_is_parse_error<T: FromJson>(status: u16, body: Seq<char>)
    requires
        is_success(status),
        json_parsed(body) is Err || T::decoded(json_parsed(body)->Ok_0) is Err,
    ensures
        typed_result::<T>(status, body) is Err,
        typed_result::<T>(status, body)->Err_0 is Parse,
{
}

/// A passthrough operation gives the body unchanged, whatever the status.
pub proof fn lemma_passthrough_ignores_status(reply: Reply)
    ensures
        raw_outcome(Ok(reply)) == Ok::<Seq<char>, BillplzErrorView>(reply.body@),
{
}

/// Reads the type and message of a structured error.
pub fn read_error_envelope(v: &serde_json::Value) -> (envelope: Option<(String, String)>)
    ensures
        envelope.deep_view() == error_envelope(value_view(*v)),
{
    match json::field(v, "error") {
        Some(detail) => {
            let error_type = take_str(detail, "type");
            let message = take_str(detail, "message");
            match (error_type, message) {
                (Ok(error_type), Ok(message)) => Some((error_type, message)),
                _ => None,
            }
        },
        None => None,
    }
}

impl BillplzClient {
    /// A client for one of the two fixed hosts.
    pub fn new(environment: Environment, api_key: &str) -> (client: Self)
        ensures
            client@.base_url == match environment {
                Environment::Production => production_url(),
                Environment::Staging => staging_url(),
            },
            client@.api_key == api_key@,
            client@.environment == Some(environment),
    {
        let base_url = match environment {
            Environment::Production => String::from_str("https://www.billplz.com"),
            Environment::Staging => String::from_str("https://www.billplz-sandbox.com"),
        };
        BillplzClient {
            base_url,
            api_key: String::from_str(api_key),
            environment: Some(environment),
        }
    }

    /// A client for any other host, such as a local stand-in for the API. It
    /// belongs to no environment.
    pub fn with_base_url(base_url: &str, api_key: &str) -> (client: Self)
        ensures
            client@.base_url == base_url@,
            client@.api_key == api_key@,
            client@.environment.is_none(),
    {
        BillplzClient {
            base_url: String::from_str(base_url),
            api_key: String::from_str(api_key),
            environment: None,
        }
    }

    /// The base endpoint every path is appended to.
    pub fn base_url(&self) -> (url: &str)
        ensures
            url@ == self@.base_url,
    {
        self.base_url.as_str()
    }

    /// The credential, sent as the user name of HTTP Basic authentication.
    pub fn api_key(&self) -> (key: &str)
        ensures
            key@ == self@.api_key,
    {
        self.api_key.as_str()
    }

    /// The environment the client was made for, if any.
    pub fn environment(&self) -> (environment: Option<Environment>)
        ensures
            environment == self@.environment,
    {
        self.environment
    }

    /// The credentials of every request: the API key as user name, no password.
    fn auth(&self) -> (auth: BasicAuth)
        ensures
            auth.username@ == self@.api_key,
            auth.password.is_none(),
    {
        BasicAuth { username: self.api_key.clone(), password: None }
    }

    /// The request that reads the resource `id` below `path`.
    pub(crate) fn read(&self, path: &str, id: &str) -> (request: Request)
        ensures
            request@ == read_request(self@, path@ + id@),
    {
        let mut url = self.base_url.clone();
        url.append(path);
        url.append(id);
        assert(url@ == self@.base_url + (path@ + id@));
        Request { method: Method::Get, url, auth: self.auth(), body: None }
    }

    /// The request that creates a resource from `body` at `path`.
    pub(crate) fn create(&self, path: &str, body: serde_json::Value) -> (request: Request)
        ensures
            request@ == create_request(self@, path@, value_view(body)),
    {
        let mut url = self.base_url.clone();
        url.append(path);
        Request { method: Method::Post, url, auth: self.auth(), body: Some(body) }
    }

    /// Turns what the transport handed back into the resource `T`, or into
    /// the error that says why there is none.
    pub fn parse_response<T: FromJson>(
        &self,
        reply: Result<Reply, String>,
    ) -> (r: Result<T, BillplzError>)
        ensures
            result_view(r) == typed_outcome::<T>(reply),
    {
        let reply = match reply {
            Ok(reply) => reply,
            Err(description) => {
                return Err(BillplzError::Http(description));
            },
        };
        let value = match json::parse(reply.body.as_str()) {
            Ok(value) => value,
            Err(description) => {
                return Err(BillplzError::Parse(ParseError::Syntax(description)));
            },
        };
        if !reply.is_success() {
            match read_error_envelope(&value) {
                Some((error_type, message)) => {
                    return Err(BillplzError::Api { error_type, message });
                },
                None => {},
            }
        }
        match T::from_json(&value) {
            Ok(resource) => Ok(resource),
            Err(fault) => Err(BillplzError::Parse(fault)),
        }
    }

    /// Hands the body back as it came. The status code plays no part: a
    /// passthrough operation fails only where the transport did.
    pub fn passthrough(&self, reply: Result<Reply, String>) -> (r: Result<String, BillplzError>)
        ensures
            result_view(r) == raw_outcome(reply),
    {
        match reply {
            Ok(reply) => Ok(reply.body),
            Err(description) => Err(BillplzError::Http(description)),
        }
    }
}

} // verus!
