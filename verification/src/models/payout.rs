//! Payouts: single disbursements to a verified bank account.

use vstd::prelude::*;
use crate::codec::ToJson;
use crate::json::{self, no_members, value_view, Json};

verus! {

/// The request that creates a payout. `total` is in the minor unit of the
/// currency.
#[derive(Debug, Clone, PartialEq, Eq)]
pub struct Payout {
    pub mass_payment_instruction_collection_id: String,
    pub bank_code: String,
    pub bank_account_number: String,
    pub identity_number: String,
    pub name: String,
    pub description: String,
    pub total: i64,
}

/// [`Payout`] as plain mathematical values.
pub struct PayoutView {
    pub mass_payment_instruction_collection_id: Seq<char>,
    pub bank_code: Seq<char>,
    pub bank_account_number: Seq<char>,
    pub identity_number: Seq<char>,
    pub name: Seq<char>,
    pub description: Seq<char>,
    pub total: i64,
}

impl DeepView for Payout {
    type V = PayoutView;

    open spec fn deep_view(&self) -> PayoutView {
        PayoutView {
            mass_payment_instruction_collection_id: self.mass_payment_instruction_collection_id@,
            bank_code: self.bank_code@,
            bank_account_number: self.bank_account_number@,
            identity_number: self.identity_number@,
            name: self.name@,
            description: self.description@,
            total: self.total,
        }
    }
}

impl View for Payout {
    type V = PayoutView;

    open spec fn view(&self) -> PayoutView {
        self.deep_view()
    }
}

/// The members of the object a payout is sent as.
pub open spec fn payout_object(p: PayoutView) -> Map<Seq<char>, Json> {
    let m = no_members();
    let m = m.insert(
        "mass_payment_instruction_collection_id"@,
        Json::Str(p.mass_payment_instruction_collection_id),
    );
    let m = m.insert("bank_code"@, Json::Str(p.bank_code));
    let m = m.insert("bank_account_number"@, Json::Str(p.bank_account_number));
    let m = m.insert("identity_number"@, Json::Str(p.identity_number));
    let m = m.insert("name"@, Json::Str(p.name));
    let m = m.insert("description"@, Json::Str(p.description));
    m.insert("total"@, Json::Int(p.total as int))
}

impl ToJson for Payout {
    open spec fn encoded(p: PayoutView) -> Json {
        Json::Object(payout_object(p))
    }

    fn to_json(&self) -> (v: serde_json::Value)
        ensures
            value_view(v) == Json::Object(payout_object(self@)),
    {
        let mut m = json::members();
        json::insert(
            &mut m,
            "mass_payment_instruction_collection_id",
            json::string(self.mass_payment_instruction_collection_id.as_str()),
        );
        json::insert(&mut m, "bank_code", json::string(self.bank_code.as_str()));
        json::insert(
            &mut m,
            "bank_account_number",
            json::string(self.bank_account_number.as_str()),
        );
        json::insert(&mut m, "identity_number", json::string(self.identity_number.as_str()));
        json::insert(&mut m, "name", json::string(self.name.as_str()));
        json::insert(&mut m, "description", json::string(self.description.as_str()));
        json::insert(&mut m, "total", json::integer(self.total));
        json::object(m)
    }
}

} // verus!
