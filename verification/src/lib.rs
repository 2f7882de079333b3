//! Typed client core for the Billplz payment API.
//!
//! The library decides what is sent and what a reply means; it performs no
//! call itself. Each operation of [`BillplzClient`] gives the one
//! [`http::Request`] it stands for. The caller's transport sends it and hands
//! back an [`http::Reply`], which [`BillplzClient::parse_response`] turns
//! into a typed resource and [`BillplzClient::passthrough`] hands on as text.
//!
//! - [`models`]: the resources as plain records, and how each is written to
//!   and read from JSON. A field of a request that was not given is left out
//!   of the JSON object; it is never sent as `null`.
//! - [`api`]: the operations, one module for each resource, with a builder
//!   for each create operation.
//! - [`client`]: base endpoint and credential, and the rules by which a reply
//!   is a resource, an API error or a parse error.
//! - [`codec`]: reading and writing the members of JSON objects.
//! - [`json`]: the calls into `serde_json`, with a model of what a JSON value
//!   holds.
//! - [`http`], [`error`]: requests, replies and errors.
//! - [`cli`], [`mcp`]: what each command of the command line and each tool of
//!   the tool server sends and answers.
//!
//! Every function carries a contract over mathematical views of its
//! arguments and result, and is verified against it.

pub mod api;
pub mod cli;
pub mod client;
pub mod codec;
pub mod error;
pub mod http;
pub mod json;
pub mod mcp;
pub mod models;

pub use client::{BillplzClient, Environment};
pub use error::BillplzError;
