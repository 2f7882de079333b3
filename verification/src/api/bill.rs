//! Reading and creating bills.

use vstd::prelude::*;
use vstd::string::*;
use crate::codec::ToJson;
use crate::client::{create_request, read_request, BillplzClient, ClientView};
use crate::http::{Request, RequestView};
use crate::json::Json;
use crate::models::bill::{bill_object, Bill, BillView};

verus! {

/// Where bills are created, and below which they are read.
pub open spec fn bills_path() -> Seq<char> {
    "/api/v3/bills"@
}

/// The request that reads the bill `bill_id`.
pub open spec fn get_bill_request(client: ClientView, bill_id: Seq<char>) -> RequestView {
    read_request(client, "/api/v3/bills/"@ + bill_id)
}

/// The request that creates `bill`.
pub open spec fn create_bill_request(client: ClientView, bill: BillView) -> RequestView {
    create_request(client, bills_path(), Json::Object(bill_object(bill)))
}

/// A bill with the required fields given and every optional one unset.
pub open spec fn bare_bill(
    collection_id: Seq<char>,
    email: Seq<char>,
    name: Seq<char>,
    amount: i64,
    callback_url: Seq<char>,
    description: Seq<char>,
    due_at: Seq<char>,
) -> BillView {
    BillView {
        collection_id,
        email,
        mobile: None,
        name,
        amount,
        callback_url,
        description,
        due_at,
        redirect_url: None,
        deliver: None,
        reference_1_label: None,
        reference_1: None,
        reference_2_label: None,
        reference_2: None,
    }
}

/// Collects the fields of a bill to create.
pub struct CreateBillBuilder<'a> {
    client: &'a BillplzClient,
    bill: Bill,
}

impl<'a> CreateBillBuilder<'a> {
    /// The client the request will be made for.
    pub closed spec fn client(&self) -> ClientView {
        self.client@
    }

    /// The bill as collected so far.
    pub closed spec fn bill(&self) -> BillView {
        self.bill@
    }

    /// A builder for a bill with the required fields given and every optional
    /// one unset.
    pub(crate) fn new(
        client: &'a BillplzClient,
        collection_id: &str,
        email: &str,
        name: &str,
        amount: i64,
        callback_url: &str,
        description: &str,
        due_at: &str,
    ) -> (builder: Self)
        ensures
            builder.client() == client@,
            builder.bill() == bare_bill(
                collection_id@,
                email@,
                name@,
                amount,
                callback_url@,
                description@,
                due_at@,
            ),
    {
        CreateBillBuilder {
            client,
            bill: Bill {
                collection_id: String::from_str(collection_id),
                email: String::from_str(email),
                mobile: None,
                name: String::from_str(name),
                amount,
                callback_url: String::from_str(callback_url),
                description: String::from_str(description),
                due_at: String::from_str(due_at),
                redirect_url: None,
                deliver: None,
                reference_1_label: None,
                reference_1: None,
                reference_2_label: None,
                reference_2: None,
            },
        }
    }

    /// Sets the payer's mobile number.
    pub fn mobile(self, mobile: &str) -> (builder: Self)
        ensures
            builder.client() == self.client(),
            builder.bill() == (BillView { mobile: Some(mobile@), ..self.bill() }),
    {
        let mut builder = self;
        builder.bill.mobile = Some(String::from_str(mobile));
        builder
    }

    /// Sets where the payer is sent after paying.
    pub fn redirect_url(self, redirect_url: &str) -> (builder: Self)
        ensures
            builder.client() == self.client(),
            builder.bill() == (BillView { redirect_url: Some(redirect_url@), ..self.bill() }),
    {
        let mut builder = self;
        builder.bill.redirect_url = Some(String::from_str(redirect_url));
        builder
    }

    /// Sets whether the API delivers the bill to the payer.
    pub fn deliver(self, deliver: bool) -> (builder: Self)
        ensures
            builder.client() == self.client(),
            builder.bill() == (BillView { deliver: Some(deliver), ..self.bill() }),
    {
        let mut builder = self;
        builder.bill.deliver = Some(deliver);
        builder
    }

    /// Sets the label of the first reference.
    pub fn reference_1_label(self, label: &str) -> (builder: Self)
        ensures
            builder.client() == self.client(),
            builder.bill() == (BillView { reference_1_label: Some(label@), ..self.bill() }),
    {
        let mut builder = self;
        builder.bill.reference_1_label = Some(String::from_str(label));
        builder
    }

    /// Sets the first reference.
    pub fn reference_1(self, reference: &str) -> (builder: Self)
        ensures
            builder.client() == self.client(),
            builder.bill() == (BillView { reference_1: Some(reference@), ..self.bill() }),
    {
        let mut builder = self;
        builder.bill.reference_1 = Some(String::from_str(reference));
        builder
    }

    /// Sets the label of the second reference.
    pub fn reference_2_label(self, label: &str) -> (builder: Self)
        ensures
            builder.client() == self.client(),
            builder.bill() == (BillView { reference_2_label: Some(label@), ..self.bill() }),
    {
        let mut builder = self;
        builder.bill.reference_2_label = Some(String::from_str(label));
        builder
    }

    /// Sets the second reference.
    pub fn reference_2(self, reference: &str) -> (builder: Self)
        ensures
            builder.client() == self.client(),
            builder.bill() == (BillView { reference_2: Some(reference@), ..self.bill() }),
    {
        let mut builder = self;
        builder.bill.reference_2 = Some(String::from_str(reference));
        builder
    }

    /// Consumes the builder and gives the request that creates the bill. The
    /// reply goes to [`BillplzClient::parse_response`].
    pub fn send(self) -> (request: Request)
        ensures
            request@ == create_bill_request(self.client(), self.bill()),
    {
        let body = self.bill.to_json();
        self.client.create("/api/v3/bills", body)
    }
}

impl BillplzClient {
    /// The request that reads the bill `bill_id`. The reply goes to
    /// [`BillplzClient::parse_response`].
    pub fn get_bill(&self, bill_id: &str) -> (request: Request)
        ensures
            request@ == get_bill_request(self@, bill_id@),
    {
        self.read("/api/v3/bills/", bill_id)
    }

    /// Starts a bill under `collection_id`, with `amount` in the minor unit of
    /// the currency.
    pub fn create_bill(
        &self,
        collection_id: &str,
        email: &str,
        name: &str,
        amount: i64,
        callback_url: &str,
        description: &str,
        due_at: &str,
    ) -> (builder: CreateBillBuilder<'_>)
        ensures
            builder.client() == self@,
            builder.bill() == bare_bill(
                collection_id@,
                email@,
                name@,
                amount,
                callback_url@,
                description@,
                due_at@,
            ),
    {
        CreateBillBuilder::new(
            self,
            collection_id,
            email,
            name,
            amount,
            callback_url,
            description,
            due_at,
        )
    }
}

} // verus!
