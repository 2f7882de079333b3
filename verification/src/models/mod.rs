//! The resources of the API as plain records, with the rules by which each
//! is written to and read from JSON.

pub mod bank;
pub mod bill;
pub mod collection;
pub mod payout;
pub mod payout_collection;
