//! Bills: a single payable request tied to a collection.

use vstd::prelude::*;
use crate::codec::{
    bool_or_null, echoes, holds, opt_bool_json, opt_str_json, or_null, outcome,
    present_iff_given, put_opt_bool, put_opt_str, read_bool, read_i64, read_i64_or_zero,
    read_opt_bool, read_opt_str, read_str, str_or_null, take_bool, take_i64, take_i64_or_zero,
    take_opt_bool, take_opt_str, take_str, with_optional, FromJson, ToJson,
};
use crate::error::{ParseError, ParseErrorView};
use crate::json::{self, no_members, value_view, Json};

verus! {

/// The request that creates a bill. `amount` is in the minor unit of the
/// currency.
#[derive(Debug, Clone, PartialEq, Eq)]
pub struct Bill {
    pub collection_id: String,
    pub email: String,
    pub mobile: Option<String>,
    pub name: String,
    pub amount: i64,
    pub callback_url: String,
    pub description: String,
    pub due_at: String,
    pub redirect_url: Option<String>,
    pub deliver: Option<bool>,
    pub reference_1_label: Option<String>,
    pub reference_1: Option<String>,
    pub reference_2_label: Option<String>,
    pub reference_2: Option<String>,
}

/// [`Bill`] as plain mathematical values.
pub struct BillView {
    pub collection_id: Seq<char>,
    pub email: Seq<char>,
    pub mobile: Option<Seq<char>>,
    pub name: Seq<char>,
    pub amount: i64,
    pub callback_url: Seq<char>,
    pub description: Seq<char>,
    pub due_at: Seq<char>,
    pub redirect_url: Option<Seq<char>>,
    pub deliver: Option<bool>,
    pub reference_1_label: Option<Seq<char>>,
    pub reference_1: Option<Seq<char>>,
    pub reference_2_label: Option<Seq<char>>,
    pub reference_2: Option<Seq<char>>,
}

impl DeepView for Bill {
    type V = BillView;

    open spec fn deep_view(&self) -> BillView {
        BillView {
            collection_id: self.collection_id@,
            email: self.email@,
            mobile: self.mobile.deep_view(),
            name: self.name@,
            amount: self.amount,
            callback_url: self.callback_url@,
            description: self.description@,
            due_at: self.due_at@,
            redirect_url: self.redirect_url.deep_view(),
            deliver: self.deliver,
            reference_1_label: self.reference_1_label.deep_view(),
            reference_1: self.reference_1.deep_view(),
            reference_2_label: self.reference_2_label.deep_view(),
            reference_2: self.reference_2.deep_view(),
        }
    }
}

impl View for Bill {
    type V = BillView;

    open spec fn view(&self) -> BillView {
        self.deep_view()
    }
}

/// The members of the object a bill is sent as: every required member, and
/// of the optional ones those that were given.
pub open spec fn bill_object(b: BillView) -> Map<Seq<char>, Json> {
    let m = no_members();
    let m = m.insert("collection_id"@, Json::Str(b.collection_id));
    let m = m.insert("email"@, Json::Str(b.email));
    let m = with_optional(m, "mobile"@, opt_str_json(b.mobile));
    let m = m.insert("name"@, Json::Str(b.name));
    let m = m.insert("amount"@, Json::Int(b.amount as int));
    let m = m.insert("callback_url"@, Json::Str(b.callback_url));
    let m = m.insert("description"@, Json::Str(b.description));
    let m = m.insert("due_at"@, Json::Str(b.due_at));
    let m = with_optional(m, "redirect_url"@, opt_str_json(b.redirect_url));
    let m = with_optional(m, "deliver"@, opt_bool_json(b.deliver));
    let m = with_optional(m, "reference_1_label"@, opt_str_json(b.reference_1_label));
    let m = with_optional(m, "reference_1"@, opt_str_json(b.reference_1));
    let m = with_optional(m, "reference_2_label"@, opt_str_json(b.reference_2_label));
    with_optional(m, "reference_2"@, opt_str_json(b.reference_2))
}

/// The keys a bill's object can hold.
pub open spec fn bill_keys() -> Set<Seq<char>> {
    set![
        "collection_id"@,
        "email"@,
        "mobile"@,
        "name"@,
        "amount"@,
        "callback_url"@,
        "description"@,
        "due_at"@,
        "redirect_url"@,
        "deliver"@,
        "reference_1_label"@,
        "reference_1"@,
        "reference_2_label"@,
        "reference_2"@,
    ]
}

/// Whether `members` hold an optional member of a bill exactly when it was
/// given, and then with its exact value.
pub open spec fn bill_optionals_kept(b: BillView, members: Map<Seq<char>, Json>) -> bool {
    &&& present_iff_given(members, "mobile"@, opt_str_json(b.mobile))
    &&& present_iff_given(members, "redirect_url"@, opt_str_json(b.redirect_url))
    &&& present_iff_given(members, "deliver"@, opt_bool_json(b.deliver))
    &&& present_iff_given(members, "reference_1_label"@, opt_str_json(b.reference_1_label))
    &&& present_iff_given(members, "reference_1"@, opt_str_json(b.reference_1))
    &&& present_iff_given(members, "reference_2_label"@, opt_str_json(b.reference_2_label))
    &&& present_iff_given(members, "reference_2"@, opt_str_json(b.reference_2))
}

/// Whether `members` hold every required member of a bill with its value.
pub open spec fn bill_required_kept(b: BillView, members: Map<Seq<char>, Json>) -> bool {
    &&& holds(members, "collection_id"@, Json::Str(b.collection_id))
    &&& holds(members, "email"@, Json::Str(b.email))
    &&& holds(members, "name"@, Json::Str(b.name))
    &&& holds(members, "amount"@, Json::Int(b.amount as int))
    &&& holds(members, "callback_url"@, Json::Str(b.callback_url))
    &&& holds(members, "description"@, Json::Str(b.description))
    &&& holds(members, "due_at"@, Json::Str(b.due_at))
}

/// What tells the fourteen keys of a bill apart: their lengths and, where
/// two are equally long, a character.
proof fn lemma_bill_keys_differ()
    ensures
        "collection_id"@.len() == 13,
        "email"@.len() == 5,
        "mobile"@.len() == 6,
        "name"@.len() == 4,
        "amount"@.len() == 6,
        "callback_url"@.len() == 12,
        "description"@.len() == 11,
        "due_at"@.len() == 6,
        "redirect_url"@.len() == 12,
        "deliver"@.len() == 7,
        "reference_1_label"@.len() == 17,
        "reference_1"@.len() == 11,
        "reference_2_label"@.len() == 17,
        "reference_2"@.len() == 11,
        "mobile"@[0] == 'm',
        "amount"@[0] == 'a',
        "due_at"@[0] == 'd',
        "callback_url"@[0] == 'c',
        "redirect_url"@[0] == 'r',
        "description"@[0] == 'd',
        "reference_1"@[0] == 'r',
        "reference_2"@[0] == 'r',
        "reference_1"@[10] == '1',
        "reference_2"@[10] == '2',
        "reference_1_label"@[10] == '1',
        "reference_2_label"@[10] == '2',
{
    reveal_strlit("collection_id");
    reveal_strlit("email");
    reveal_strlit("mobile");
    reveal_strlit("name");
    reveal_strlit("amount");
    reveal_strlit("callback_url");
    reveal_strlit("description");
    reveal_strlit("due_at");
    reveal_strlit("redirect_url");
    reveal_strlit("deliver");
    reveal_strlit("reference_1_label");
    reveal_strlit("reference_1");
    reveal_strlit("reference_2_label");
    reveal_strlit("reference_2");
}

/// The object of a bill holds each required member, holds an optional member
/// exactly when it was given, and holds nothing else.
pub proof fn lemma_bill_object(b: BillView)
    ensures
        bill_required_kept(b, bill_object(b)),
        bill_optionals_kept(b, bill_object(b)),
        bill_object(b).dom().subset_of(bill_keys()),
{
    lemma_bill_keys_differ();
}

impl ToJson for Bill {
    open spec fn encoded(b: BillView) -> Json {
        Json::Object(bill_object(b))
    }

    /// The JSON object this bill is sent as. An optional member that was not
    /// given is no key of it; one that was given is, with its exact value.
    fn to_json(&self) -> (v: serde_json::Value)
        ensures
            value_view(v) == Json::Object(bill_object(self@)),
            bill_required_kept(self@, value_view(v)->Object_0),
            bill_optionals_kept(self@, value_view(v)->Object_0),
    {
        proof {
            lemma_bill_object(self@);
        }
        let mut m = json::members();
        json::insert(&mut m, "collection_id", json::string(self.collection_id.as_str()));
        json::insert(&mut m, "email", json::string(self.email.as_str()));
        put_opt_str(&mut m, "mobile", &self.mobile);
        json::insert(&mut m, "name", json::string(self.name.as_str()));
        json::insert(&mut m, "amount", json::integer(self.amount));
        json::insert(&mut m, "callback_url", json::string(self.callback_url.as_str()));
        json::insert(&mut m, "description", json::string(self.description.as_str()));
        json::insert(&mut m, "due_at", json::string(self.due_at.as_str()));
        put_opt_str(&mut m, "redirect_url", &self.redirect_url);
        put_opt_bool(&mut m, "deliver", self.deliver);
        put_opt_str(&mut m, "reference_1_label", &self.reference_1_label);
        put_opt_str(&mut m, "reference_1", &self.reference_1);
        put_opt_str(&mut m, "reference_2_label", &self.reference_2_label);
        put_opt_str(&mut m, "reference_2", &self.reference_2);
        json::object(m)
    }
}

/// A bill as the API reports it: the request's members, and what the server
/// adds to them.
#[derive(Debug, Clone, PartialEq, Eq)]
pub struct BillResponse {
    pub id: String,
    pub collection_id: String,
    pub email: String,
    pub mobile: Option<String>,
    pub name: String,
    pub amount: i64,
    pub callback_url: String,
    pub description: String,
    pub due_at: String,
    pub redirect_url: Option<String>,
    pub deliver: Option<bool>,
    pub reference_1_label: Option<String>,
    pub reference_1: Option<String>,
    pub reference_2_label: Option<String>,
    pub reference_2: Option<String>,
    pub paid: bool,
    pub state: String,
    pub paid_amount: i64,
    pub url: Option<String>,
    pub paid_at: Option<String>,
}

/// [`BillResponse`] as plain mathematical values.
pub struct BillResponseView {
    pub id: Seq<char>,
    pub collection_id: Seq<char>,
    pub email: Seq<char>,
    pub mobile: Option<Seq<char>>,
    pub name: Seq<char>,
    pub amount: i64,
    pub callback_url: Seq<char>,
    pub description: Seq<char>,
    pub due_at: Seq<char>,
    pub redirect_url: Option<Seq<char>>,
    pub deliver: Option<bool>,
    pub reference_1_label: Option<Seq<char>>,
    pub reference_1: Option<Seq<char>>,
    pub reference_2_label: Option<Seq<char>>,
    pub reference_2: Option<Seq<char>>,
    pub paid: bool,
    pub state: Seq<char>,
    pub paid_amount: i64,
    pub url: Option<Seq<char>>,
    pub paid_at: Option<Seq<char>>,
}

impl DeepView for BillResponse {
    type V = BillResponseView;

    open spec fn deep_view(&self) -> BillResponseView {
        BillResponseView {
            id: self.id@,
            collection_id: self.collection_id@,
            email: self.email@,
            mobile: self.mobile.deep_view(),
            name: self.name@,
            amount: self.amount,
            callback_url: self.callback_url@,
            description: self.description@,
            due_at: self.due_at@,
            redirect_url: self.redirect_url.deep_view(),
            deliver: self.deliver,
            reference_1_label: self.reference_1_label.deep_view(),
            reference_1: self.reference_1.deep_view(),
            reference_2_label: self.reference_2_label.deep_view(),
            reference_2: self.reference_2.deep_view(),
            paid: self.paid,
            state: self.state@,
            paid_amount: self.paid_amount,
            url: self.url.deep_view(),
            paid_at: self.paid_at.deep_view(),
        }
    }
}

impl View for BillResponse {
    type V = BillResponseView;

    open spec fn view(&self) -> BillResponseView {
        self.deep_view()
    }
}

/// The members of the object a reported bill is shown as. Every member is
/// there; one that the API did not give is `null`.
pub open spec fn bill_response_object(b: BillResponseView) -> Map<Seq<char>, Json> {
    let m = no_members();
    let m = m.insert("id"@, Json::Str(b.id));
    let m = m.insert("collection_id"@, Json::Str(b.collection_id));
    let m = m.insert("email"@, Json::Str(b.email));
    let m = m.insert("mobile"@, or_null(opt_str_json(b.mobile)));
    let m = m.insert("name"@, Json::Str(b.name));
    let m = m.insert("amount"@, Json::Int(b.amount as int));
    let m = m.insert("callback_url"@, Json::Str(b.callback_url));
    let m = m.insert("description"@, Json::Str(b.description));
    let m = m.insert("due_at"@, Json::Str(b.due_at));
    let m = m.insert("redirect_url"@, or_null(opt_str_json(b.redirect_url)));
    let m = m.insert("deliver"@, or_null(opt_bool_json(b.deliver)));
    let m = m.insert("reference_1_label"@, or_null(opt_str_json(b.reference_1_label)));
    let m = m.insert("reference_1"@, or_null(opt_str_json(b.reference_1)));
    let m = m.insert("reference_2_label"@, or_null(opt_str_json(b.reference_2_label)));
    let m = m.insert("reference_2"@, or_null(opt_str_json(b.reference_2)));
    let m = m.insert("paid"@, Json::Bool(b.paid));
    let m = m.insert("state"@, Json::Str(b.state));
    let m = m.insert("paid_amount"@, Json::Int(b.paid_amount as int));
    let m = m.insert("url"@, or_null(opt_str_json(b.url)));
    m.insert("paid_at"@, or_null(opt_str_json(b.paid_at)))
}

impl ToJson for BillResponse {
    open spec fn encoded(b: BillResponseView) -> Json {
        Json::Object(bill_response_object(b))
    }

    fn to_json(&self) -> (v: serde_json::Value)
        ensures
            value_view(v) == Json::Object(bill_response_object(self@)),
    {
        let mut m = json::members();
        json::insert(&mut m, "id", json::string(self.id.as_str()));
        json::insert(&mut m, "collection_id", json::string(self.collection_id.as_str()));
        json::insert(&mut m, "email", json::string(self.email.as_str()));
        json::insert(&mut m, "mobile", str_or_null(&self.mobile));
        json::insert(&mut m, "name", json::string(self.name.as_str()));
        json::insert(&mut m, "amount", json::integer(self.amount));
        json::insert(&mut m, "callback_url", json::string(self.callback_url.as_str()));
        json::insert(&mut m, "description", json::string(self.description.as_str()));
        json::insert(&mut m, "due_at", json::string(self.due_at.as_str()));
        json::insert(&mut m, "redirect_url", str_or_null(&self.redirect_url));
        json::insert(&mut m, "deliver", bool_or_null(self.deliver));
        json::insert(&mut m, "reference_1_label", str_or_null(&self.reference_1_label));
        json::insert(&mut m, "reference_1", str_or_null(&self.reference_1));
        json::insert(&mut m, "reference_2_label", str_or_null(&self.reference_2_label));
        json::insert(&mut m, "reference_2", str_or_null(&self.reference_2));
        json::insert(&mut m, "paid", json::boolean(self.paid));
        json::insert(&mut m, "state", json::string(self.state.as_str()));
        json::insert(&mut m, "paid_amount", json::integer(self.paid_amount));
        json::insert(&mut m, "url", str_or_null(&self.url));
        json::insert(&mut m, "paid_at", str_or_null(&self.paid_at));
        json::object(m)
    }
}

impl BillResponseView {
    /// The part of a reported bill that a request gives.
    pub open spec fn request(self) -> BillView {
        BillView {
            collection_id: self.collection_id,
            email: self.email,
            mobile: self.mobile,
            name: self.name,
            amount: self.amount,
            callback_url: self.callback_url,
            description: self.description,
            due_at: self.due_at,
            redirect_url: self.redirect_url,
            deliver: self.deliver,
            reference_1_label: self.reference_1_label,
            reference_1: self.reference_1,
            reference_2_label: self.reference_2_label,
            reference_2: self.reference_2,
        }
    }
}

/// Whether the members that the server adds to a bill can be read from
/// `reply`.
pub open spec fn bill_additions_readable(reply: Json) -> bool {
    &&& read_str(reply, "id"@) is Ok
    &&& read_bool(reply, "paid"@) is Ok
    &&& read_str(reply, "state"@) is Ok
    &&& read_i64_or_zero(reply, "paid_amount"@) is Ok
    &&& read_opt_str(reply, "url"@) is Ok
    &&& read_opt_str(reply, "paid_at"@) is Ok
}

/// A bill that is written, echoed by the server together with what the
/// server adds, and read back is the bill that was written: every field of
/// the request comes back with its value, given or not.
pub proof fn lemma_bill_round_trip(b: BillView, reply: Map<Seq<char>, Json>)
    requires
        echoes(reply, bill_object(b), bill_keys()),
        bill_additions_readable(Json::Object(reply)),
    ensures
        BillResponse::decoded(Json::Object(reply)) is Ok,
        BillResponse::decoded(Json::Object(reply))->Ok_0.request() == b,
{
    lemma_bill_object(b);
    let sent = bill_object(b);
    assert(bill_keys().contains("mobile"@));
    assert(bill_keys().contains("redirect_url"@));
    assert(bill_keys().contains("deliver"@));
    assert(bill_keys().contains("reference_1_label"@));
    assert(bill_keys().contains("reference_1"@));
    assert(bill_keys().contains("reference_2_label"@));
    assert(bill_keys().contains("reference_2"@));
}

impl FromJson for BillResponse {
    /// Members are read in the order of the record; the first one that is
    /// missing or of the wrong kind decides the fault. Members the record does
    /// not know are passed over.
    open spec fn decoded(j: Json) -> Result<BillResponseView, ParseErrorView> {
        let id = read_str(j, "id"@);
        let collection_id = read_str(j, "collection_id"@);
        let email = read_str(j, "email"@);
        let mobile = read_opt_str(j, "mobile"@);
        let name = read_str(j, "name"@);
        let amount = read_i64(j, "amount"@);
        let callback_url = read_str(j, "callback_url"@);
        let description = read_str(j, "description"@);
        let due_at = read_str(j, "due_at"@);
        let redirect_url = read_opt_str(j, "redirect_url"@);
        let deliver = read_opt_bool(j, "deliver"@);
        let reference_1_label = read_opt_str(j, "reference_1_label"@);
        let reference_1 = read_opt_str(j, "reference_1"@);
        let reference_2_label = read_opt_str(j, "reference_2_label"@);
        let reference_2 = read_opt_str(j, "reference_2"@);
        let paid = read_bool(j, "paid"@);
        let state = read_str(j, "state"@);
        let paid_amount = read_i64_or_zero(j, "paid_amount"@);
        let url = read_opt_str(j, "url"@);
        let paid_at = read_opt_str(j, "paid_at"@);
        if !(j is Object) {
            Err(ParseErrorView::NotAnObject)
        } else if id is Err {
            Err(id->Err_0)
        } else if collection_id is Err {
            Err(collection_id->Err_0)
        } else if email is Err {
            Err(email->Err_0)
        } else if mobile is Err {
            Err(mobile->Err_0)
        } else if name is Err {
            Err(name->Err_0)
        } else if amount is Err {
            Err(amount->Err_0)
        } else if callback_url is Err {
            Err(callback_url->Err_0)
        } else if description is Err {
            Err(description->Err_0)
        } else if due_at is Err {
            Err(due_at->Err_0)
        } else if redirect_url is Err {
            Err(redirect_url->Err_0)
        } else if deliver is Err {
            Err(deliver->Err_0)
        } else if reference_1_label is Err {
            Err(reference_1_label->Err_0)
        } else if reference_1 is Err {
            Err(reference_1->Err_0)
        } else if reference_2_label is Err {
            Err(reference_2_label->Err_0)
        } else if reference_2 is Err {
            Err(reference_2->Err_0)
        } else if paid is Err {
            Err(paid->Err_0)
        } else if state is Err {
            Err(state->Err_0)
        } else if paid_amount is Err {
            Err(paid_amount->Err_0)
        } else if url is Err {
            Err(url->Err_0)
        } else if paid_at is Err {
            Err(paid_at->Err_0)
        } else {
            Ok(
                BillResponseView {
                    id: id->Ok_0,
                    collection_id: collection_id->Ok_0,
                    email: email->Ok_0,
                    mobile: mobile->Ok_0,
                    name: name->Ok_0,
                    amount: amount->Ok_0,
                    callback_url: callback_url->Ok_0,
                    description: description->Ok_0,
                    due_at: due_at->Ok_0,
                    redirect_url: redirect_url->Ok_0,
                    deliver: deliver->Ok_0,
                    reference_1_label: reference_1_label->Ok_0,
                    reference_1: reference_1->Ok_0,
                    reference_2_label: reference_2_label->Ok_0,
                    reference_2: reference_2->Ok_0,
                    paid: paid->Ok_0,
                    state: state->Ok_0,
                    paid_amount: paid_amount->Ok_0,
                    url: url->Ok_0,
                    paid_at: paid_at->Ok_0,
                },
            )
        }
    }

    fn from_json(v: &serde_json::Value) -> (r: Result<Self, ParseError>)
        ensures
            outcome(r) == Self::decoded(value_view(*v)),
    {
        if !json::is_object(v) {
            return Err(ParseError::NotAnObject);
        }
        let id = take_str(v, "id")?;
        let collection_id = take_str(v, "collection_id")?;
        let email = take_str(v, "email")?;
        let mobile = take_opt_str(v, "mobile")?;
        let name = take_str(v, "name")?;
        let amount = take_i64(v, "amount")?;
        let callback_url = take_str(v, "callback_url")?;
        let description = take_str(v, "description")?;
        let due_at = take_str(v, "due_at")?;
        let redirect_url = take_opt_str(v, "redirect_url")?;
        let deliver = take_opt_bool(v, "deliver")?;
        let reference_1_label = take_opt_str(v, "reference_1_label")?;
        let reference_1 = take_opt_str(v, "reference_1")?;
        let reference_2_label = take_opt_str(v, "reference_2_label")?;
        let reference_2 = take_opt_str(v, "reference_2")?;
        let paid = take_bool(v, "paid")?;
        let state = take_str(v, "state")?;
        let paid_amount = take_i64_or_zero(v, "paid_amount")?;
        let url = take_opt_str(v, "url")?;
        let paid_at = take_opt_str(v, "paid_at")?;
        Ok(
            BillResponse {
                id,
                collection_id,
                email,
                mobile,
                name,
                amount,
                callback_url,
                description,
                due_at,
                redirect_url,
                deliver,
                reference_1_label,
                reference_1,
                reference_2_label,
                reference_2,
                paid,
                state,
                paid_amount,
                url,
                paid_at,
            },
        )
    }
}

} // verus!
