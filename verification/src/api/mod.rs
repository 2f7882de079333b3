//! The operations of the API, one module for each resource.
//!
//! A read operation is a method of the client that gives the request to send.
//! A create operation starts a builder: construction takes the required
//! fields, setters record optional ones (the last write to a field wins), and
//! `send` consumes the builder and gives the one request it stands for.

pub mod bank;
pub mod bill;
pub mod collection;
pub mod payout;
pub mod payout_collection;
