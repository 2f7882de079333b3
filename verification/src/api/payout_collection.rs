//! Reading and creating payout collections.

use vstd::prelude::*;
use vstd::string::*;
use crate::client::{create_request, read_request, BillplzClient, ClientView};
use crate::codec::ToJson;
use crate::http::{Request, RequestView};
use crate::json::Json;
use crate::models::payout_collection::{
    payout_collection_object, PayoutCollection, PayoutCollectionView,
};

verus! {

/// Where payout collections are created.
pub open spec fn payout_collections_path() -> Seq<char> {
    "/api/v4/mass_payment_instruction_collections"@
}

/// The request that reads the payout collection `payout_collection_id`.
pub open spec fn get_payout_collection_request(
    client: ClientView,
    payout_collection_id: Seq<char>,
) -> RequestView {
    read_request(client, "/api/v4/mass_payment_instruction_collections/"@ + payout_collection_id)
}

/// The request that creates `payout_collection`.
pub open spec fn create_payout_collection_request(
    client: ClientView,
    payout_collection: PayoutCollectionView,
) -> RequestView {
    create_request(
        client,
        payout_collections_path(),
        Json::Object(payout_collection_object(payout_collection)),
    )
}

/// Holds the title of a payout collection to create.
pub struct CreatePayoutCollectionBuilder<'a> {
    client: &'a BillplzClient,
    payout_collection: PayoutCollection,
}

impl<'a> CreatePayoutCollectionBuilder<'a> {
    /// The client the request will be made for.
    pub closed spec fn client(&self) -> ClientView {
        self.client@
    }

    /// The payout collection to create.
    pub closed spec fn payout_collection(&self) -> PayoutCollectionView {
        self.payout_collection@
    }

    /// A builder that holds the title.
    pub(crate) fn new(client: &'a BillplzClient, title: &str) -> (builder: Self)
        ensures
            builder.client() == client@,
            builder.payout_collection() == (PayoutCollectionView { title: title@ }),
    {
        CreatePayoutCollectionBuilder {
            client,
            payout_collection: PayoutCollection { title: String::from_str(title) },
        }
    }

    /// Consumes the builder and gives the request that creates the payout
    /// collection. The reply goes to [`BillplzClient::passthrough`].
    pub fn send(self) -> (request: Request)
        ensures
            request@ == create_payout_collection_request(self.client(), self.payout_collection()),
    {
        let body = self.payout_collection.to_json();
        self.client.create("/api/v4/mass_payment_instruction_collections", body)
    }
}

impl BillplzClient {
    /// The request that reads the payout collection `payout_collection_id`.
    /// The reply goes to [`BillplzClient::passthrough`].
    pub fn get_payout_collection(&self, payout_collection_id: &str) -> (request: Request)
        ensures
            request@ == get_payout_collection_request(self@, payout_collection_id@),
    {
        self.read("/api/v4/mass_payment_instruction_collections/", payout_collection_id)
    }

    /// Starts a payout collection.
    pub fn create_payout_collection(
        &self,
        title: &str,
    ) -> (builder: CreatePayoutCollectionBuilder<'_>)
        ensures
            builder.client() == self@,
            builder.payout_collection() == (PayoutCollectionView { title: title@ }),
    {
        CreatePayoutCollectionBuilder::new(self, title)
    }
}

} // verus!
