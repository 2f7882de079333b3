//! The tools of the tool server: what each tool sends and what it answers.
//!
//! A tool takes its input record and gives the request to send. The reply is
//! turned into the tool's answer, which is always a text: the resource
//! indented, the body as it came, or `Error: ` and the message of the error.

use vstd::prelude::*;
use vstd::string::*;
use crate::api::bank::{
    create_bank_verification_request, fpx_bank_list, get_bank_verification_request,
};
use crate::api::bill::{create_bill_request, get_bill_request};
use crate::api::collection::{collection_of, create_collection_request, get_collection_request};
use crate::api::payout::{create_payout_request, get_payout_request};
use crate::api::payout_collection::{
    create_payout_collection_request, get_payout_collection_request,
};
use crate::client::{raw_outcome, typed_outcome, BillplzClient, ClientView};
use crate::codec::{encoded_all, list_to_json, FromJson, ToJson};
use crate::error::BillplzErrorView;
use crate::http::{Reply, Request};
use crate::json::{self, json_pretty_text, value_view, Json};
use crate::models::bank::{BankView, FpxBank};
use crate::models::bill::BillView;
use crate::models::payout::PayoutView;
use crate::models::payout_collection::PayoutCollectionView;

verus! {

/// Input of the tools that read a resource by its id.
#[derive(Debug, Clone, PartialEq, Eq)]
pub struct GetByIdInput {
    pub id: String,
}

/// Input of the tool that creates a collection.
#[derive(Debug, Clone, PartialEq, Eq)]
pub struct CreateCollectionInput {
    pub title: String,
    pub split_header: Option<bool>,
}

/// Input of the tool that creates a bill. `amount` is in the minor unit of
/// the currency.
#[derive(Debug, Clone, PartialEq, Eq)]
pub struct CreateBillInput {
    pub collection_id: String,
    pub email: String,
    pub name: String,
    pub amount: i64,
    pub callback_url: String,
    pub description: String,
    pub due_at: String,
    pub mobile: Option<String>,
    pub redirect_url: Option<String>,
    pub reference_1_label: Option<String>,
    pub reference_1: Option<String>,
    pub reference_2_label: Option<String>,
    pub reference_2: Option<String>,
}

/// Input of the tool that reads the verification of an account.
#[derive(Debug, Clone, PartialEq, Eq)]
pub struct GetBankVerificationInput {
    pub account_number: String,
}

/// Input of the tool that asks for an account to be verified.
#[derive(Debug, Clone, PartialEq, Eq)]
pub struct CreateBankVerificationInput {
    pub name: String,
    pub id_no: String,
    pub acc_no: String,
    pub code: String,
    pub organization: bool,
}

/// Input of the tool that creates a payout. `total` is in the minor unit of
/// the currency.
#[derive(Debug, Clone, PartialEq, Eq)]
pub struct CreatePayoutInput {
    pub collection_id: String,
    pub bank_code: String,
    pub acc_no: String,
    pub id_no: String,
    pub name: String,
    pub description: String,
    pub total: i64,
}

/// Input of the tool that creates a payout collection.
#[derive(Debug, Clone, PartialEq, Eq)]
pub struct CreatePayoutCollectionInput {
    pub title: String,
}

/// The text a value is answered as: indented JSON, or, where the serializer
/// writes none, its description of why.
pub open spec fn answered(j: Json) -> Seq<char> {
    match json_pretty_text(j) {
        Ok(text) => text,
        Err(description) => description,
    }
}

/// The answer that reports an error.
pub open spec fn error_answer(e: BillplzErrorView) -> Seq<char> {
    "Error: "@ + e.message()
}

/// The answer of a tool whose reply is decoded as the resource `T`.
pub open spec fn typed_answer<T: FromJson + ToJson>(reply: Result<Reply, String>) -> Seq<char> {
    match typed_outcome::<T>(reply) {
        Ok(resource) => answered(<T as ToJson>::encoded(resource)),
        Err(e) => error_answer(e),
    }
}

/// The answer of a tool whose reply is taken as it came.
pub open spec fn raw_answer(reply: Result<Reply, String>) -> Seq<char> {
    match raw_outcome(reply) {
        Ok(body) => body,
        Err(e) => error_answer(e),
    }
}

/// The bill a `create_bill` input stands for.
pub open spec fn input_bill(input: CreateBillInput) -> BillView {
    BillView {
        collection_id: input.collection_id@,
        email: input.email@,
        mobile: input.mobile.deep_view(),
        name: input.name@,
        amount: input.amount,
        callback_url: input.callback_url@,
        description: input.description@,
        due_at: input.due_at@,
        redirect_url: input.redirect_url.deep_view(),
        deliver: None,
        reference_1_label: input.reference_1_label.deep_view(),
        reference_1: input.reference_1.deep_view(),
        reference_2_label: input.reference_2_label.deep_view(),
        reference_2: input.reference_2.deep_view(),
    }
}

/// The tools, bound to the client they work for.
pub struct BillplzMcp {
    client: BillplzClient,
}

/// Writes a value as indented JSON, or as the serializer's description of
/// why it writes none.
fn answer_value(value: &serde_json::Value) -> (text: String)
    ensures
        text@ == answered(value_view(*value)),
{
    match json::to_pretty_text(value) {
        Ok(text) => text,
        Err(description) => description,
    }
}

impl BillplzMcp {
    /// The client the tools work for.
    pub closed spec fn client(&self) -> ClientView {
        self.client@
    }

    /// The tools for a client.
    pub fn new(client: BillplzClient) -> (tools: Self)
        ensures
            tools.client() == client@,
    {
        BillplzMcp { client }
    }

    /// Tool `get_collection`: reads a collection by its id.
    pub fn get_collection(&self, input: &GetByIdInput) -> (request: Request)
        ensures
            request@ == get_collection_request(self.client(), input.id@),
    {
        self.client.get_collection(input.id.as_str())
    }

    /// Tool `create_collection`: creates a collection. The split-header flag
    /// is sent only when the input raises it.
    pub fn create_collection(&self, input: &CreateCollectionInput) -> (request: Request)
        ensures
            request@ == create_collection_request(
                self.client(),
                collection_of(
                    input.title@,
                    if input.split_header == Some(true) {
                        Some(true)
                    } else {
                        None
                    },
                    Seq::empty(),
                ),
            ),
    {
        let builder = self.client.create_collection(input.title.as_str());
        let builder = match input.split_header {
            Some(true) => builder.split_header(true),
            _ => builder,
        };
        builder.send()
    }

    /// Tool `get_bill`: reads a bill by its id.
    pub fn get_bill(&self, input: &GetByIdInput) -> (request: Request)
        ensures
            request@ == get_bill_request(self.client(), input.id@),
    {
        self.client.get_bill(input.id.as_str())
    }

    /// Tool `create_bill`: creates a bill with the optional fields the input
    /// gives.
    pub fn create_bill(&self, input: &CreateBillInput) -> (request: Request)
        ensures
            request@ == create_bill_request(self.client(), input_bill(*input)),
    {
        let builder = self.client.create_bill(
            input.collection_id.as_str(),
            input.email.as_str(),
            input.name.as_str(),
            input.amount,
            input.callback_url.as_str(),
            input.description.as_str(),
            input.due_at.as_str(),
        );
        let builder = match &input.mobile {
            Some(m) => builder.mobile(m.as_str()),
            None => builder,
        };
        let builder = match &input.redirect_url {
            Some(r) => builder.redirect_url(r.as_str()),
            None => builder,
        };
        let builder = match &input.reference_1_label {
            Some(l) => builder.reference_1_label(l.as_str()),
            None => builder,
        };
        let builder = match &input.reference_1 {
            Some(v) => builder.reference_1(v.as_str()),
            None => builder,
        };
        let builder = match &input.reference_2_label {
            Some(l) => builder.reference_2_label(l.as_str()),
            None => builder,
        };
        let builder = match &input.reference_2 {
            Some(v) => builder.reference_2(v.as_str()),
            None => builder,
        };
        builder.send()
    }

    /// Tool `get_fpx_banks`: the list of FPX banks. There is nothing to send.
    pub fn get_fpx_banks(&self) -> (answer: String)
        ensures
            answer@ == answered(
                Json::Array(encoded_all::<FpxBank>(fpx_bank_list(self.client().environment))),
            ),
    {
        let banks = self.client.get_fpx_banks();
        let value = list_to_json::<FpxBank>(&banks);
        answer_value(&value)
    }

    /// Tool `get_bank_verification`: reads the verification of an account.
    pub fn get_bank_verification(&self, input: &GetBankVerificationInput) -> (request: Request)
        ensures
            request@ == get_bank_verification_request(self.client(), input.account_number@),
    {
        self.client.get_bank_verification(input.account_number.as_str())
    }

    /// Tool `create_bank_verification`: asks for an account to be verified.
    pub fn create_bank_verification(
        &self,
        input: &CreateBankVerificationInput,
    ) -> (request: Request)
        ensures
            request@ == create_bank_verification_request(
                self.client(),
                BankView {
                    name: input.name@,
                    id_no: input.id_no@,
                    acc_no: input.acc_no@,
                    code: input.code@,
                    organization: input.organization,
                },
            ),
    {
        self.client.create_bank_verification(
            input.name.as_str(),
            input.id_no.as_str(),
            input.acc_no.as_str(),
            input.code.as_str(),
        ).organization(input.organization).send()
    }

    /// Tool `get_payout`: reads a payout by its id.
    pub fn get_payout(&self, input: &GetByIdInput) -> (request: Request)
        ensures
            request@ == get_payout_request(self.client(), input.id@),
    {
        self.client.get_payout(input.id.as_str())
    }

    /// Tool `create_payout`: creates a payout.
    pub fn create_payout(&self, input: &CreatePayoutInput) -> (request: Request)
        ensures
            request@ == create_payout_request(
                self.client(),
                PayoutView {
                    mass_payment_instruction_collection_id: input.collection_id@,
                    bank_code: input.bank_code@,
                    bank_account_number: input.acc_no@,
                    identity_number: input.id_no@,
                    name: input.name@,
                    description: input.description@,
                    total: input.total,
                },
            ),
    {
        self.client.create_payout(
            input.collection_id.as_str(),
            input.bank_code.as_str(),
            input.acc_no.as_str(),
            input.id_no.as_str(),
            input.name.as_str(),
            input.description.as_str(),
            input.total,
        ).send()
    }

    /// Tool `get_payout_collection`: reads a payout collection by its id.
    pub fn get_payout_collection(&self, input: &GetByIdInput) -> (request: Request)
        ensures
            request@ == get_payout_collection_request(self.client(), input.id@),
    {
        self.client.get_payout_collection(input.id.as_str())
    }

    /// Tool `create_payout_collection`: creates a payout collection.
    pub fn create_payout_collection(
        &self,
        input: &CreatePayoutCollectionInput,
    ) -> (request: Request)
        ensures
            request@ == create_payout_collection_request(
                self.client(),
                PayoutCollectionView { title: input.title@ },
            ),
    {
        self.client.create_payout_collection(input.title.as_str()).send()
    }

    /// The answer of the tools for collections and bills: the resource as
    /// indented JSON, or the error.
    pub fn answer<T: FromJson + ToJson>(&self, reply: Result<Reply, String>) -> (answer: String)
        ensures
            answer@ == typed_answer::<T>(reply),
    {
        match self.client.parse_response::<T>(reply) {
            Ok(resource) => {
                let value = resource.to_json();
                answer_value(&value)
            },
            Err(e) => {
                let message = e.to_string();
                String::from_str("Error: ").concat(message.as_str())
            },
        }
    }

    /// The answer of the other tools: the body as it came, or the error.
    pub fn answer_raw(&self, reply: Result<Reply, String>) -> (answer: String)
        ensures
            answer@ == raw_answer(reply),
    {
        match self.client.passthrough(reply) {
            Ok(body) => body,
            Err(e) => {
                let message = e.to_string();
                String::from_str("Error: ").concat(message.as_str())
            },
        }
    }
}

} // verus!
