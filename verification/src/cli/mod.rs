//! The command line: what each command sends and what it prints.
//!
//! The commands are decided here; reading the arguments, sending the request
//! and printing are the caller's part. A command is first turned into a
//! [`Step`]. Where the step is a request, the reply is turned into the value
//! to show by [`finish`], and that value into text by [`output_json`].

pub mod config;

use vstd::prelude::*;
use vstd::string::*;
use crate::api::bank::{
    create_bank_verification_request, fpx_bank_list, get_bank_verification_request,
};
use crate::api::bill::{create_bill_request, get_bill_request};
use crate::api::collection::{collection_of, create_collection_request, get_collection_request};
use crate::api::payout::{create_payout_request, get_payout_request};
use crate::api::payout_collection::{
    create_payout_collection_request, get_payout_collection_request,
};
use crate::client::{typed_outcome, BillplzClient, ClientView};
use crate::codec::{encoded_all, list_to_json, ToJson};
use crate::error::{BillplzError, BillplzErrorView};
use crate::http::{Reply, Request, RequestView};
use crate::json::{self, json_parsed, json_pretty_text, json_text, value_view, Json};
use crate::models::bank::{BankView, FpxBank};
use crate::models::bill::{BillResponse, BillView};
use crate::models::collection::CollectionResponse;
use crate::models::payout::PayoutView;
use crate::models::payout_collection::PayoutCollectionView;

verus! {

/// The arguments of one run.
#[derive(Debug, Clone, PartialEq, Eq)]
pub struct Cli {
    /// Whether the output is indented.
    pub pretty: bool,
    pub command: Commands,
}

/// The resource a command is about, or the server mode.
#[derive(Debug, Clone, PartialEq, Eq)]
pub enum Commands {
    /// Manage collections.
    Collection { action: CollectionAction },
    /// Manage bills.
    Bill { action: BillAction },
    /// Bank operations.
    Bank { action: BankAction },
    /// Manage payouts.
    Payout { action: PayoutAction },
    /// Manage payout collections.
    PayoutCollection { action: PayoutCollectionAction },
    /// Serve the tools over standard input and output.
    Mcp,
}

/// What to do with a collection.
#[derive(Debug, Clone, PartialEq, Eq)]
pub enum CollectionAction {
    /// Read a collection by its id.
    Get { id: String },
    /// Create a collection.
    Create { title: String, split_header: bool },
}

/// What to do with a bill.
#[derive(Debug, Clone, PartialEq, Eq)]
pub enum BillAction {
    /// Read a bill by its id.
    Get { id: String },
    /// Create a bill. `amount` is in the minor unit of the currency.
    Create {
        collection_id: String,
        email: String,
        name: String,
        amount: i64,
        callback_url: String,
        description: String,
        due_at: String,
        mobile: Option<String>,
        redirect_url: Option<String>,
        reference_1_label: Option<String>,
        reference_1: Option<String>,
        reference_2_label: Option<String>,
        reference_2: Option<String>,
    },
}

/// What to do about banks.
#[derive(Debug, Clone, PartialEq, Eq)]
pub enum BankAction {
    /// List the FPX banks.
    FpxList,
    /// Read the verification of an account.
    Verify { account_number: String },
    /// Ask for an account to be verified.
    CreateVerification {
        name: String,
        id_no: String,
        acc_no: String,
        code: String,
        organization: bool,
    },
}

/// What to do with a payout.
#[derive(Debug, Clone, PartialEq, Eq)]
pub enum PayoutAction {
    /// Read a payout by its id.
    Get { id: String },
    /// Create a payout. `total` is in the minor unit of the currency.
    Create {
        collection_id: String,
        bank_code: String,
        acc_no: String,
        id_no: String,
        name: String,
        description: String,
        total: i64,
    },
}

/// What to do with a payout collection.
#[derive(Debug, Clone, PartialEq, Eq)]
pub enum PayoutCollectionAction {
    /// Read a payout collection by its id.
    Get { id: String },
    /// Create a payout collection.
    Create { title: String },
}

/// How the reply to a request is turned into the value to show.
#[derive(Debug, Clone, Copy, PartialEq, Eq, Structural)]
pub enum Shown {
    /// Decoded as a collection.
    Collection,
    /// Decoded as a bill.
    Bill,
    /// Taken as it came.
    Raw,
}

/// What a command asks of the caller.
#[derive(Debug, PartialEq)]
pub enum Step {
    /// Send the request and show the reply in the given way.
    Send { request: Request, shown: Shown },
    /// Show the value; there is nothing to send.
    Show { value: serde_json::Value },
    /// Start the tool server.
    Serve,
}

/// [`Step`] as plain mathematical values.
pub enum StepView {
    Send { request: RequestView, shown: Shown },
    Show { value: Json },
    Serve,
}

impl View for Step {
    type V = StepView;

    open spec fn view(&self) -> StepView {
        match self {
            Step::Send { request, shown } => StepView::Send { request: request@, shown: *shown },
            Step::Show { value } => StepView::Show { value: value_view(*value) },
            Step::Serve => StepView::Serve,
        }
    }
}

/// The step a command stands for.
pub open spec fn planned(command: Commands, client: ClientView) -> StepView {
    match command {
        Commands::Collection { action } => match action {
            CollectionAction::Get { id } => StepView::Send {
                request: get_collection_request(client, id@),
                shown: Shown::Collection,
            },
            CollectionAction::Create { title, split_header } => StepView::Send {
                request: create_collection_request(
                    client,
                    collection_of(
                        title@,
                        if split_header {
                            Some(true)
                        } else {
                            None
                        },
                        Seq::empty(),
                    ),
                ),
                shown: Shown::Collection,
            },
        },
        Commands::Bill { action } => match action {
            BillAction::Get { id } => StepView::Send {
                request: get_bill_request(client, id@),
                shown: Shown::Bill,
            },
            BillAction::Create {
                collection_id,
                email,
                name,
                amount,
                callback_url,
                description,
                due_at,
                mobile,
                redirect_url,
                reference_1_label,
                reference_1,
                reference_2_label,
                reference_2,
            } => StepView::Send {
                request: create_bill_request(
                    client,
                    BillView {
                        collection_id: collection_id@,
                        email: email@,
                        mobile: mobile.deep_view(),
                        name: name@,
                        amount,
                        callback_url: callback_url@,
                        description: description@,
                        due_at: due_at@,
                        redirect_url: redirect_url.deep_view(),
                        deliver: None,
                        reference_1_label: reference_1_label.deep_view(),
                        reference_1: reference_1.deep_view(),
                        reference_2_label: reference_2_label.deep_view(),
                        reference_2: reference_2.deep_view(),
                    },
                ),
                shown: Shown::Bill,
            },
        },
        Commands::Bank { action } => match action {
            BankAction::FpxList => StepView::Show {
                value: Json::Array(encoded_all::<FpxBank>(fpx_bank_list(client.environment))),
            },
            BankAction::Verify { account_number } => StepView::Send {
                request: get_bank_verification_request(client, account_number@),
                shown: Shown::Raw,
            },
            BankAction::CreateVerification {
                name,
                id_no,
                acc_no,
                code,
                organization,
            } => StepView::Send {
                request: create_bank_verification_request(
                    client,
                    BankView {
                        name: name@,
                        id_no: id_no@,
                        acc_no: acc_no@,
                        code: code@,
                        organization,
                    },
                ),
                shown: Shown::Raw,
            },
        },
        Commands::Payout { action } => match action {
            PayoutAction::Get { id } => StepView::Send {
                request: get_payout_request(client, id@),
                shown: Shown::Raw,
            },
            PayoutAction::Create {
                collection_id,
                bank_code,
                acc_no,
                id_no,
                name,
                description,
                total,
            } => StepView::Send {
                request: create_payout_request(
                    client,
                    PayoutView {
                        mass_payment_instruction_collection_id: collection_id@,
                        bank_code: bank_code@,
                        bank_account_number: acc_no@,
                        identity_number: id_no@,
                        name: name@,
                        description: description@,
                        total,
                    },
                ),
                shown: Shown::Raw,
            },
        },
        Commands::PayoutCollection { action } => match action {
            PayoutCollectionAction::Get { id } => StepView::Send {
                request: get_payout_collection_request(client, id@),
                shown: Shown::Raw,
            },
            PayoutCollectionAction::Create { title } => StepView::Send {
                request: create_payout_collection_request(
                    client,
                    PayoutCollectionView { title: title@ },
                ),
                shown: Shown::Raw,
            },
        },
        Commands::Mcp => StepView::Serve,
    }
}

/// The value a body is shown as when it is taken as it came: the JSON it
/// holds, or, where it holds none, the body itself as a string.
pub open spec fn raw_shown(body: Seq<char>) -> Json {
    match json_parsed(body) {
        Ok(j) => j,
        Err(_) => Json::Str(body),
    }
}

/// The value shown for a reply.
pub open spec fn shown_value(shown: Shown, reply: Result<Reply, String>) -> Result<
    Json,
    BillplzErrorView,
> {
    match shown {
        Shown::Collection => match typed_outcome::<CollectionResponse>(reply) {
            Ok(collection) => Ok(CollectionResponse::encoded(collection)),
            Err(e) => Err(e),
        },
        Shown::Bill => match typed_outcome::<BillResponse>(reply) {
            Ok(bill) => Ok(BillResponse::encoded(bill)),
            Err(e) => Err(e),
        },
        Shown::Raw => match reply {
            Ok(reply) => Ok(raw_shown(reply.body@)),
            Err(description) => Err(BillplzErrorView::Http(description@)),
        },
    }
}

/// The text a value is printed as.
pub open spec fn printed(j: Json, pretty: bool) -> Result<Seq<char>, Seq<char>> {
    if pretty {
        json_pretty_text(j)
    } else {
        json_text(j)
    }
}

/// The JSON a body holds, or, where it holds none, the body itself as a
/// string value.
pub fn raw_value(body: String) -> (value: serde_json::Value)
    ensures
        value_view(value) == raw_shown(body@),
{
    match json::parse(body.as_str()) {
        Ok(value) => value,
        Err(_) => json::string(body.as_str()),
    }
}

/// The text to print for a value: indented when `pretty` is set, compact
/// otherwise. Fails with the serializer's description where it writes none.
pub fn output_json(value: &serde_json::Value, pretty: bool) -> (r: Result<String, String>)
    ensures
        match r {
            Ok(text) => printed(value_view(*value), pretty) == Ok::<Seq<char>, Seq<char>>(text@),
            Err(d) => printed(value_view(*value), pretty) == Err::<Seq<char>, Seq<char>>(d@),
        },
{
    if pretty {
        json::to_pretty_text(value)
    } else {
        json::to_text(value)
    }
}

/// The request of `bill create`: the required fields, and the setters of the
/// options that were given.
fn bill_step(
    client: &BillplzClient,
    collection_id: &String,
    email: &String,
    name: &String,
    amount: i64,
    callback_url: &String,
    description: &String,
    due_at: &String,
    mobile: &Option<String>,
    redirect_url: &Option<String>,
    reference_1_label: &Option<String>,
    reference_1: &Option<String>,
    reference_2_label: &Option<String>,
    reference_2: &Option<String>,
) -> (request: Request)
    ensures
        request@ == create_bill_request(
            client@,
            BillView {
                collection_id: collection_id@,
                email: email@,
                mobile: mobile.deep_view(),
                name: name@,
                amount,
                callback_url: callback_url@,
                description: description@,
                due_at: due_at@,
                redirect_url: redirect_url.deep_view(),
                deliver: None,
                reference_1_label: reference_1_label.deep_view(),
                reference_1: reference_1.deep_view(),
                reference_2_label: reference_2_label.deep_view(),
                reference_2: reference_2.deep_view(),
            },
        ),
{
    let builder = client.create_bill(
        collection_id.as_str(),
        email.as_str(),
        name.as_str(),
        amount,
        callback_url.as_str(),
        description.as_str(),
        due_at.as_str(),
    );
    let builder = match mobile {
        Some(m) => builder.mobile(m.as_str()),
        None => builder,
    };
    let builder = match redirect_url {
        Some(r) => builder.redirect_url(r.as_str()),
        None => builder,
    };
    let builder = match reference_1_label {
        Some(l) => builder.reference_1_label(l.as_str()),
        None => builder,
    };
    let builder = match reference_1 {
        Some(v) => builder.reference_1(v.as_str()),
        None => builder,
    };
    let builder = match reference_2_label {
        Some(l) => builder.reference_2_label(l.as_str()),
        None => builder,
    };
    let builder = match reference_2 {
        Some(v) => builder.reference_2(v.as_str()),
        None => builder,
    };
    builder.send()
}

/// Decides what a command asks for: the request to send and how its reply is
/// shown, the value to show at once, or the start of the tool server.
pub fn execute_command(cli: &Cli, client: &BillplzClient) -> (step: Step)
    ensures
        step@ == planned(cli.command, client@),
{
    match &cli.command {
        Commands::Collection { action } => match action {
            CollectionAction::Get { id } => Step::Send {
                request: client.get_collection(id.as_str()),
                shown: Shown::Collection,
            },
            CollectionAction::Create { title, split_header } => {
                let builder = client.create_collection(title.as_str());
                let builder = if *split_header {
                    builder.split_header(true)
                } else {
                    builder
                };
                Step::Send { request: builder.send(), shown: Shown::Collection }
            },
        },
        Commands::Bill { action } => match action {
            BillAction::Get { id } => Step::Send {
                request: client.get_bill(id.as_str()),
                shown: Shown::Bill,
            },
            BillAction::Create {
                collection_id,
                email,
                name,
                amount,
                callback_url,
                description,
                due_at,
                mobile,
                redirect_url,
                reference_1_label,
                reference_1,
                reference_2_label,
                reference_2,
            } => Step::Send {
                request: bill_step(
                    client,
                    collection_id,
                    email,
                    name,
                    *amount,
                    callback_url,
                    description,
                    due_at,
                    mobile,
                    redirect_url,
                    reference_1_label,
                    reference_1,
                    reference_2_label,
                    reference_2,
                ),
                shown: Shown::Bill,
            },
        },
        Commands::Bank { action } => match action {
            BankAction::FpxList => {
                let banks = client.get_fpx_banks();
                Step::Show { value: list_to_json::<FpxBank>(&banks) }
            },
            BankAction::Verify { account_number } => Step::Send {
                request: client.get_bank_verification(account_number.as_str()),
                shown: Shown::Raw,
            },
            BankAction::CreateVerification {
                name,
                id_no,
                acc_no,
                code,
                organization,
            } => Step::Send {
                request: client.create_bank_verification(
                    name.as_str(),
                    id_no.as_str(),
                    acc_no.as_str(),
                    code.as_str(),
                ).organization(*organization).send(),
                shown: Shown::Raw,
            },
        },
        Commands::Payout { action } => match action {
            PayoutAction::Get { id } => Step::Send {
                request: client.get_payout(id.as_str()),
                shown: Shown::Raw,
            },
            PayoutAction::Create {
                collection_id,
                bank_code,
                acc_no,
                id_no,
                name,
                description,
                total,
            } => Step::Send {
                request: client.create_payout(
                    collection_id.as_str(),
                    bank_code.as_str(),
                    acc_no.as_str(),
                    id_no.as_str(),
                    name.as_str(),
                    description.as_str(),
                    *total,
                ).send(),
                shown: Shown::Raw,
            },
        },
        Commands::PayoutCollection { action } => match action {
            PayoutCollectionAction::Get { id } => Step::Send {
                request: client.get_payout_collection(id.as_str()),
                shown: Shown::Raw,
            },
            PayoutCollectionAction::Create { title } => Step::Send {
                request: client.create_payout_collection(title.as_str()).send(),
                shown: Shown::Raw,
            },
        },
        Commands::Mcp => Step::Serve,
    }
}

/// Turns the reply to a command's request into the value to show, or into
/// the error that ends the run.
pub fn finish(
    shown: Shown,
    client: &BillplzClient,
    reply: Result<Reply, String>,
) -> (r: Result<serde_json::Value, BillplzError>)
    ensures
        match r {
            Ok(value) => shown_value(shown, reply) == Ok::<Json, BillplzErrorView>(
                value_view(value),
            ),
            Err(e) => shown_value(shown, reply) == Err::<Json, BillplzErrorView>(e@),
        },
{
    match shown {
        Shown::Collection => match client.parse_response::<CollectionResponse>(reply) {
            Ok(collection) => Ok(collection.to_json()),
            Err(e) => Err(e),
        },
        Shown::Bill => match client.parse_response::<BillResponse>(reply) {
            Ok(bill) => Ok(bill.to_json()),
            Err(e) => Err(e),
        },
        Shown::Raw => match client.passthrough(reply) {
            Ok(body) => Ok(raw_value(body)),
            Err(e) => Err(e),
        },
    }
}

} // verus!
