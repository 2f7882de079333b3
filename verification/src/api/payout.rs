//! Reading and creating payouts.

use vstd::prelude::*;
use vstd::string::*;
use crate::client::{create_request, read_request, BillplzClient, ClientView};
use crate::codec::ToJson;
use crate::http::{Request, RequestView};
use crate::json::Json;
use crate::models::payout::{payout_object, Payout, PayoutView};

verus! {

/// Where payouts are created.
pub open spec fn payouts_path() -> Seq<char> {
    "/api/v4/mass_payment_instructions"@
}

/// The request that reads the payout `payout_id`.
pub open spec fn get_payout_request(client: ClientView, payout_id: Seq<char>) -> RequestView {
    read_request(client, "/api/v4/mass_payment_instructions/"@ + payout_id)
}

/// The request that creates `payout`.
pub open spec fn create_payout_request(client: ClientView, payout: PayoutView) -> RequestView {
    create_request(client, payouts_path(), Json::Object(payout_object(payout)))
}

/// Holds the fields of a payout to create.
pub struct CreatePayoutBuilder<'a> {
    client: &'a BillplzClient,
    payout: Payout,
}

impl<'a> CreatePayoutBuilder<'a> {
    /// The client the request will be made for.
    pub closed spec fn client(&self) -> ClientView {
        self.client@
    }

    /// The payout to create.
    pub closed spec fn payout(&self) -> PayoutView {
        self.payout@
    }

    /// A builder that holds the payout.
    pub(crate) fn new(
        client: &'a BillplzClient,
        mass_payment_instruction_collection_id: &str,
        bank_code: &str,
        bank_account_number: &str,
        identity_number: &str,
        name: &str,
        description: &str,
        total: i64,
    ) -> (builder: Self)
        ensures
            builder.client() == client@,
            builder.payout() == (PayoutView {
                mass_payment_instruction_collection_id: mass_payment_instruction_collection_id@,
                bank_code: bank_code@,
                bank_account_number: bank_account_number@,
                identity_number: identity_number@,
                name: name@,
                description: description@,
                total,
            }),
    {
        CreatePayoutBuilder {
            client,
            payout: Payout {
                mass_payment_instruction_collection_id: String::from_str(
                    mass_payment_instruction_collection_id,
                ),
                bank_code: String::from_str(bank_code),
                bank_account_number: String::from_str(bank_account_number),
                identity_number: String::from_str(identity_number),
                name: String::from_str(name),
                description: String::from_str(description),
                total,
            },
        }
    }

    /// Consumes the builder and gives the request that creates the payout.
    /// The reply goes to [`BillplzClient::passthrough`].
    pub fn send(self) -> (request: Request)
        ensures
            request@ == create_payout_request(self.client(), self.payout()),
    {
        let body = self.payout.to_json();
        self.client.create("/api/v4/mass_payment_instructions", body)
    }
}

impl BillplzClient {
    /// The request that reads the payout `payout_id`. The reply goes to
    /// [`BillplzClient::passthrough`].
    pub fn get_payout(&self, payout_id: &str) -> (request: Request)
        ensures
            request@ == get_payout_request(self@, payout_id@),
    {
        self.read("/api/v4/mass_payment_instructions/", payout_id)
    }

    /// Starts a payout of `total`, in the minor unit of the currency, under
    /// a payout collection.
    pub fn create_payout(
        &self,
        mass_payment_instruction_collection_id: &str,
        bank_code: &str,
        bank_account_number: &str,
        identity_number: &str,
        name: &str,
        description: &str,
        total: i64,
    ) -> (builder: CreatePayoutBuilder<'_>)
        ensures
            builder.client() == self@,
            builder.payout() == (PayoutView {
                mass_payment_instruction_collection_id: mass_payment_instruction_collection_id@,
                bank_code: bank_code@,
                bank_account_number: bank_account_number@,
                identity_number: identity_number@,
                name: name@,
                description: description@,
                total,
            }),
    {
        CreatePayoutBuilder::new(
            self,
            mass_payment_instruction_collection_id,
            bank_code,
            bank_account_number,
            identity_number,
            name,
            description,
            total,
        )
    }
}

} // verus!
