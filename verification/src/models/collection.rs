//! Collections: the named groupings that bills are issued under, with the
//! rules by which a share of each bill goes to other recipients.

use vstd::prelude::*;
use crate::codec::{
    bool_or_null, echoes, holds, lemma_list_round_trip, list_or_null, opt_bool_json,
    opt_int_json, opt_list_json, opt_resource_json, opt_str_json, or_null, outcome,
    present_iff_given, put_opt_bool, put_opt_int, put_opt_list, put_opt_str, read_i32,
    read_opt_bool, read_opt_i64, read_opt_list, read_opt_resource, read_opt_str, read_str,
    resource_or_null, str_or_null, take_i32, take_opt_bool, take_opt_i64, take_opt_list,
    take_opt_resource, take_opt_str, take_str, with_optional, FromJson, ToJson,
};
use crate::error::{ParseError, ParseErrorView};
use crate::json::{self, no_members, value_view, Json};

verus! {

/// A rule that sends part of a bill's proceeds to another recipient: a fixed
/// amount, or a share given as text. Rules apply in the order of
/// `stack_order`, lower first.
#[derive(Debug, Clone, PartialEq, Eq)]
pub struct SplitPayment {
    pub email: String,
    pub fixed_cut: Option<i64>,
    pub variable_cut: Option<String>,
    pub stack_order: i32,
}

/// [`SplitPayment`] as plain mathematical values.
pub struct SplitPaymentView {
    pub email: Seq<char>,
    pub fixed_cut: Option<i64>,
    pub variable_cut: Option<Seq<char>>,
    pub stack_order: i32,
}

impl DeepView for SplitPayment {
    type V = SplitPaymentView;

    open spec fn deep_view(&self) -> SplitPaymentView {
        SplitPaymentView {
            email: self.email@,
            fixed_cut: self.fixed_cut,
            variable_cut: self.variable_cut.deep_view(),
            stack_order: self.stack_order,
        }
    }
}

impl View for SplitPayment {
    type V = SplitPaymentView;

    open spec fn view(&self) -> SplitPaymentView {
        self.deep_view()
    }
}

/// The members of the object a split payment is sent as: the recipient and
/// the order always, of the two cuts those that were given.
pub open spec fn split_payment_object(s: SplitPaymentView) -> Map<Seq<char>, Json> {
    let m = no_members();
    let m = m.insert("email"@, Json::Str(s.email));
    let m = with_optional(m, "fixed_cut"@, opt_int_json(s.fixed_cut));
    let m = with_optional(m, "variable_cut"@, opt_str_json(s.variable_cut));
    m.insert("stack_order"@, Json::Int(s.stack_order as int))
}

/// The four keys of a split payment differ in length.
proof fn lemma_split_payment_keys_differ()
    ensures
        "email"@.len() == 5,
        "fixed_cut"@.len() == 9,
        "variable_cut"@.len() == 12,
        "stack_order"@.len() == 11,
{
    reveal_strlit("email");
    reveal_strlit("fixed_cut");
    reveal_strlit("variable_cut");
    reveal_strlit("stack_order");
}

/// The object of a split payment holds the recipient and the order, and holds
/// a cut exactly when it was given.
pub proof fn lemma_split_payment_object(s: SplitPaymentView)
    ensures
        holds(split_payment_object(s), "email"@, Json::Str(s.email)),
        holds(split_payment_object(s), "stack_order"@, Json::Int(s.stack_order as int)),
        present_iff_given(split_payment_object(s), "fixed_cut"@, opt_int_json(s.fixed_cut)),
        present_iff_given(split_payment_object(s), "variable_cut"@, opt_str_json(s.variable_cut)),
{
    lemma_split_payment_keys_differ();
}

impl ToJson for SplitPayment {
    open spec fn encoded(s: SplitPaymentView) -> Json {
        Json::Object(split_payment_object(s))
    }

    fn to_json(&self) -> (v: serde_json::Value)
        ensures
            value_view(v) == Json::Object(split_payment_object(self@)),
    {
        let mut m = json::members();
        json::insert(&mut m, "email", json::string(self.email.as_str()));
        put_opt_int(&mut m, "fixed_cut", self.fixed_cut);
        put_opt_str(&mut m, "variable_cut", &self.variable_cut);
        json::insert(&mut m, "stack_order", json::integer(self.stack_order as i64));
        json::object(m)
    }
}

impl FromJson for SplitPayment {
    /// The recipient and the order are required, the cuts optional.
    open spec fn decoded(j: Json) -> Result<SplitPaymentView, ParseErrorView> {
        let email = read_str(j, "email"@);
        let fixed_cut = read_opt_i64(j, "fixed_cut"@);
        let variable_cut = read_opt_str(j, "variable_cut"@);
        let stack_order = read_i32(j, "stack_order"@);
        if !(j is Object) {
            Err(ParseErrorView::NotAnObject)
        } else if email is Err {
            Err(email->Err_0)
        } else if fixed_cut is Err {
            Err(fixed_cut->Err_0)
        } else if variable_cut is Err {
            Err(variable_cut->Err_0)
        } else if stack_order is Err {
            Err(stack_order->Err_0)
        } else {
            Ok(
                SplitPaymentView {
                    email: email->Ok_0,
                    fixed_cut: fixed_cut->Ok_0,
                    variable_cut: variable_cut->Ok_0,
                    stack_order: stack_order->Ok_0,
                },
            )
        }
    }

    fn from_json(v: &serde_json::Value) -> (r: Result<Self, ParseError>)
        ensures
            outcome(r) == Self::decoded(value_view(*v)),
    {
        if !json::is_object(v) {
            return Err(ParseError::NotAnObject);
        }
        let email = take_str(v, "email")?;
        let fixed_cut = take_opt_i64(v, "fixed_cut")?;
        let variable_cut = take_opt_str(v, "variable_cut")?;
        let stack_order = take_i32(v, "stack_order")?;
        Ok(SplitPayment { email, fixed_cut, variable_cut, stack_order })
    }
}

/// A split payment that is written and read back is the split payment that
/// was written.
pub proof fn lemma_split_payment_round_trip(s: SplitPaymentView)
    ensures
        SplitPayment::decoded(SplitPayment::encoded(s)) == Ok::<SplitPaymentView, ParseErrorView>(
            s,
        ),
{
    lemma_split_payment_object(s);
}

/// The request that creates a collection.
#[derive(Debug, Clone, PartialEq, Eq)]
pub struct Collection {
    pub title: String,
    pub split_header: Option<bool>,
    pub split_payments: Option<Vec<SplitPayment>>,
}

/// [`Collection`] as plain mathematical values.
pub struct CollectionView {
    pub title: Seq<char>,
    pub split_header: Option<bool>,
    pub split_payments: Option<Seq<SplitPaymentView>>,
}

impl DeepView for Collection {
    type V = CollectionView;

    open spec fn deep_view(&self) -> CollectionView {
        CollectionView {
            title: self.title@,
            split_header: self.split_header,
            split_payments: self.split_payments.deep_view(),
        }
    }
}

impl View for Collection {
    type V = CollectionView;

    open spec fn view(&self) -> CollectionView {
        self.deep_view()
    }
}

/// The members of the object a collection is sent as: the title, and of the
/// optional members those that were given.
pub open spec fn collection_object(c: CollectionView) -> Map<Seq<char>, Json> {
    let m = no_members();
    let m = m.insert("title"@, Json::Str(c.title));
    let m = with_optional(m, "split_header"@, opt_bool_json(c.split_header));
    with_optional(m, "split_payments"@, opt_list_json::<SplitPayment>(c.split_payments))
}

/// The keys a collection's object can hold.
pub open spec fn collection_keys() -> Set<Seq<char>> {
    set!["title"@, "split_header"@, "split_payments"@]
}

/// Whether `members` hold an optional member of a collection exactly when it
/// was given, and then with its exact value.
pub open spec fn collection_optionals_kept(
    c: CollectionView,
    members: Map<Seq<char>, Json>,
) -> bool {
    &&& present_iff_given(members, "split_header"@, opt_bool_json(c.split_header))
    &&& present_iff_given(
        members,
        "split_payments"@,
        opt_list_json::<SplitPayment>(c.split_payments),
    )
}

/// The three keys of a collection differ in length.
proof fn lemma_collection_keys_differ()
    ensures
        "title"@.len() == 5,
        "split_header"@.len() == 12,
        "split_payments"@.len() == 14,
{
    reveal_strlit("title");
    reveal_strlit("split_header");
    reveal_strlit("split_payments");
}

/// The object of a collection holds the title, holds an optional member
/// exactly when it was given, and holds nothing else.
pub proof fn lemma_collection_object(c: CollectionView)
    ensures
        holds(collection_object(c), "title"@, Json::Str(c.title)),
        collection_optionals_kept(c, collection_object(c)),
        collection_object(c).dom().subset_of(collection_keys()),
{
    lemma_collection_keys_differ();
}

impl ToJson for Collection {
    open spec fn encoded(c: CollectionView) -> Json {
        Json::Object(collection_object(c))
    }

    /// The JSON object this collection is sent as. An optional member that
    /// was not given is no key of it; one that was given is, with its exact
    /// value.
    fn to_json(&self) -> (v: serde_json::Value)
        ensures
            value_view(v) == Json::Object(collection_object(self@)),
            holds(value_view(v)->Object_0, "title"@, Json::Str(self@.title)),
            collection_optionals_kept(self@, value_view(v)->Object_0),
    {
        proof {
            lemma_collection_object(self@);
        }
        let mut m = json::members();
        json::insert(&mut m, "title", json::string(self.title.as_str()));
        put_opt_bool(&mut m, "split_header", self.split_header);
        put_opt_list::<SplitPayment>(&mut m, "split_payments", &self.split_payments);
        json::object(m)
    }
}

/// The two sizes a collection's logo comes in.
#[derive(Debug, Clone, PartialEq, Eq)]
pub struct Logo {
    pub thumb_url: Option<String>,
    pub avatar_url: Option<String>,
}

/// [`Logo`] as plain mathematical values.
pub struct LogoView {
    pub thumb_url: Option<Seq<char>>,
    pub avatar_url: Option<Seq<char>>,
}

impl DeepView for Logo {
    type V = LogoView;

    open spec fn deep_view(&self) -> LogoView {
        LogoView {
            thumb_url: self.thumb_url.deep_view(),
            avatar_url: self.avatar_url.deep_view(),
        }
    }
}

impl View for Logo {
    type V = LogoView;

    open spec fn view(&self) -> LogoView {
        self.deep_view()
    }
}

/// The members of the object a logo is shown as. Both are there; one that
/// the API did not give is `null`.
pub open spec fn logo_object(l: LogoView) -> Map<Seq<char>, Json> {
    let m = no_members();
    let m = m.insert("thumb_url"@, or_null(opt_str_json(l.thumb_url)));
    m.insert("avatar_url"@, or_null(opt_str_json(l.avatar_url)))
}

impl ToJson for Logo {
    open spec fn encoded(l: LogoView) -> Json {
        Json::Object(logo_object(l))
    }

    fn to_json(&self) -> (v: serde_json::Value)
        ensures
            value_view(v) == Json::Object(logo_object(self@)),
    {
        let mut m = json::members();
        json::insert(&mut m, "thumb_url", str_or_null(&self.thumb_url));
        json::insert(&mut m, "avatar_url", str_or_null(&self.avatar_url));
        json::object(m)
    }
}

impl FromJson for Logo {
    /// Both members are optional.
    open spec fn decoded(j: Json) -> Result<LogoView, ParseErrorView> {
        let thumb_url = read_opt_str(j, "thumb_url"@);
        let avatar_url = read_opt_str(j, "avatar_url"@);
        if !(j is Object) {
            Err(ParseErrorView::NotAnObject)
        } else if thumb_url is Err {
            Err(thumb_url->Err_0)
        } else if avatar_url is Err {
            Err(avatar_url->Err_0)
        } else {
            Ok(LogoView { thumb_url: thumb_url->Ok_0, avatar_url: avatar_url->Ok_0 })
        }
    }

    fn from_json(v: &serde_json::Value) -> (r: Result<Self, ParseError>)
        ensures
            outcome(r) == Self::decoded(value_view(*v)),
    {
        if !json::is_object(v) {
            return Err(ParseError::NotAnObject);
        }
        let thumb_url = take_opt_str(v, "thumb_url")?;
        let avatar_url = take_opt_str(v, "avatar_url")?;
        Ok(Logo { thumb_url, avatar_url })
    }
}

/// A collection as the API reports it.
#[derive(Debug, Clone, PartialEq, Eq)]
pub struct CollectionResponse {
    pub id: String,
    pub title: String,
    pub split_header: Option<bool>,
    pub split_payments: Option<Vec<SplitPayment>>,
    pub logo: Option<Logo>,
    pub status: String,
}

/// [`CollectionResponse`] as plain mathematical values.
pub struct CollectionResponseView {
    pub id: Seq<char>,
    pub title: Seq<char>,
    pub split_header: Option<bool>,
    pub split_payments: Option<Seq<SplitPaymentView>>,
    pub logo: Option<LogoView>,
    pub status: Seq<char>,
}

impl DeepView for CollectionResponse {
    type V = CollectionResponseView;

    open spec fn deep_view(&self) -> CollectionResponseView {
        CollectionResponseView {
            id: self.id@,
            title: self.title@,
            split_header: self.split_header,
            split_payments: self.split_payments.deep_view(),
            logo: self.logo.deep_view(),
            status: self.status@,
        }
    }
}

impl View for CollectionResponse {
    type V = CollectionResponseView;

    open spec fn view(&self) -> CollectionResponseView {
        self.deep_view()
    }
}

/// The members of the object a reported collection is shown as. Every member
/// is there; one that the API did not give is `null`.
pub open spec fn collection_response_object(c: CollectionResponseView) -> Map<Seq<char>, Json> {
    let m = no_members();
    let m = m.insert("id"@, Json::Str(c.id));
    let m = m.insert("title"@, Json::Str(c.title));
    let m = m.insert("split_header"@, or_null(opt_bool_json(c.split_header)));
    let m = m.insert("split_payments"@, or_null(opt_list_json::<SplitPayment>(c.split_payments)));
    let m = m.insert("logo"@, or_null(opt_resource_json::<Logo>(c.logo)));
    m.insert("status"@, Json::Str(c.status))
}

impl ToJson for CollectionResponse {
    open spec fn encoded(c: CollectionResponseView) -> Json {
        Json::Object(collection_response_object(c))
    }

    fn to_json(&self) -> (v: serde_json::Value)
        ensures
            value_view(v) == Json::Object(collection_response_object(self@)),
    {
        let mut m = json::members();
        json::insert(&mut m, "id", json::string(self.id.as_str()));
        json::insert(&mut m, "title", json::string(self.title.as_str()));
        json::insert(&mut m, "split_header", bool_or_null(self.split_header));
        json::insert(&mut m, "split_payments", list_or_null::<SplitPayment>(&self.split_payments));
        json::insert(&mut m, "logo", resource_or_null::<Logo>(&self.logo));
        json::insert(&mut m, "status", json::string(self.status.as_str()));
        json::object(m)
    }
}

impl CollectionResponseView {
    /// The part of a reported collection that a request gives.
    pub open spec fn request(self) -> CollectionView {
        CollectionView {
            title: self.title,
            split_header: self.split_header,
            split_payments: self.split_payments,
        }
    }
}

/// Whether the members that the server adds to a collection can be read from
/// `reply`.
pub open spec fn collection_additions_readable(reply: Json) -> bool {
    &&& read_str(reply, "id"@) is Ok
    &&& read_opt_resource::<Logo>(reply, "logo"@) is Ok
    &&& read_str(reply, "status"@) is Ok
}

/// A collection that is written, echoed by the server together with what the
/// server adds, and read back is the collection that was written: the title,
/// the flag and every split payment come back with their values.
pub proof fn lemma_collection_round_trip(c: CollectionView, reply: Map<Seq<char>, Json>)
    requires
        echoes(reply, collection_object(c), collection_keys()),
        collection_additions_readable(Json::Object(reply)),
    ensures
        CollectionResponse::decoded(Json::Object(reply)) is Ok,
        CollectionResponse::decoded(Json::Object(reply))->Ok_0.request() == c,
{
    lemma_collection_object(c);
    assert(collection_keys().contains("split_header"@));
    assert(collection_keys().contains("split_payments"@));
    if c.split_payments is Some {
        assert forall|x: SplitPaymentView| #[trigger]
            SplitPayment::decoded(SplitPayment::encoded(x)) == Ok::<
                SplitPaymentView,
                ParseErrorView,
            >(x) by {
            lemma_split_payment_round_trip(x);
        }
        lemma_list_round_trip::<SplitPayment>(c.split_payments->Some_0);
    }
}

impl FromJson for CollectionResponse {
    /// Members are read in the order of the record; the first one that is
    /// missing or of the wrong kind decides the fault. Members the record does
    /// not know are passed over.
    open spec fn decoded(j: Json) -> Result<CollectionResponseView, ParseErrorView> {
        let id = read_str(j, "id"@);
        let title = read_str(j, "title"@);
        let split_header = read_opt_bool(j, "split_header"@);
        let split_payments = read_opt_list::<SplitPayment>(j, "split_payments"@);
        let logo = read_opt_resource::<Logo>(j, "logo"@);
        let status = read_str(j, "status"@);
        if !(j is Object) {
            Err(ParseErrorView::NotAnObject)
        } else if id is Err {
            Err(id->Err_0)
        } else if title is Err {
            Err(title->Err_0)
        } else if split_header is Err {
            Err(split_header->Err_0)
        } else if split_payments is Err {
            Err(split_payments->Err_0)
        } else if logo is Err {
            Err(logo->Err_0)
        } else if status is Err {
            Err(status->Err_0)
        } else {
            Ok(
                CollectionResponseView {
                    id: id->Ok_0,
                    title: title->Ok_0,
                    split_header: split_header->Ok_0,
                    split_payments: split_payments->Ok_0,
                    logo: logo->Ok_0,
                    status: status->Ok_0,
                },
            )
        }
    }

    fn from_json(v: &serde_json::Value) -> (r: Result<Self, ParseError>)
        ensures
            outcome(r) == Self::decoded(value_view(*v)),
    {
        if !json::is_object(v) {
            return Err(ParseError::NotAnObject);
        }
        let id = take_str(v, "id")?;
        let title = take_str(v, "title")?;
        let split_header = take_opt_bool(v, "split_header")?;
        let split_payments = take_opt_list::<SplitPayment>(v, "split_payments")?;
        let logo = take_opt_resource::<Logo>(v, "logo")?;
        let status = take_str(v, "status")?;
        Ok(CollectionResponse { id, title, split_header, split_payments, logo, status })
    }
}

} // verus!
