//! Reading and creating collections.

use vstd::prelude::*;
use vstd::string::*;
use crate::client::{create_request, read_request, BillplzClient, ClientView};
use crate::codec::{encoded_all, holds, ToJson};
use crate::http::{Request, RequestView};
use crate::json::Json;
use crate::models::collection::{
    collection_object, lemma_collection_object, lemma_split_payment_object, split_payment_object,
    Collection, CollectionView, SplitPayment, SplitPaymentView,
};

verus! {

/// Where collections are created.
pub open spec fn collections_path() -> Seq<char> {
    "/api/v4/collections"@
}

/// The request that reads the collection `collection_id`.
pub open spec fn get_collection_request(
    client: ClientView,
    collection_id: Seq<char>,
) -> RequestView {
    read_request(client, "/api/v4/collections/"@ + collection_id)
}

/// The request that creates `collection`.
pub open spec fn create_collection_request(
    client: ClientView,
    collection: CollectionView,
) -> RequestView {
    create_request(client, collections_path(), Json::Object(collection_object(collection)))
}

/// The collection a builder stands for. Split payments are a member of it
/// only when at least one was added.
pub open spec fn collection_of(
    title: Seq<char>,
    split_header: Option<bool>,
    entries: Seq<SplitPaymentView>,
) -> CollectionView {
    CollectionView {
        title,
        split_header,
        split_payments: if entries.len() == 0 {
            None
        } else {
            Some(entries)
        },
    }
}

/// A split payment that names the recipient and the order only.
pub open spec fn plain_entry(email: Seq<char>, stack_order: i32) -> SplitPaymentView {
    SplitPaymentView { email, fixed_cut: None, variable_cut: None, stack_order }
}

/// A split payment of a fixed amount.
pub open spec fn fixed_cut_entry(
    email: Seq<char>,
    fixed_cut: i64,
    stack_order: i32,
) -> SplitPaymentView {
    SplitPaymentView { email, fixed_cut: Some(fixed_cut), variable_cut: None, stack_order }
}

/// A split payment of a share.
pub open spec fn variable_cut_entry(
    email: Seq<char>,
    variable_cut: Seq<char>,
    stack_order: i32,
) -> SplitPaymentView {
    SplitPaymentView { email, fixed_cut: None, variable_cut: Some(variable_cut), stack_order }
}

/// Whether a split payment names at most one of the two cuts.
pub open spec fn at_most_one_cut(entry: SplitPaymentView) -> bool {
    entry.fixed_cut is None || entry.variable_cut is None
}

/// A collection made without any split payment is sent without the member
/// `split_payments`.
pub proof fn lemma_no_split_payments(title: Seq<char>, split_header: Option<bool>)
    ensures
        !collection_object(collection_of(title, split_header, Seq::empty())).contains_key(
            "split_payments"@,
        ),
{
    lemma_collection_object(collection_of(title, split_header, Seq::empty()));
}

/// A collection made with one split payment of a fixed amount is sent with
/// exactly one entry under `split_payments`; that entry holds `fixed_cut`
/// with the amount and does not hold `variable_cut`.
pub proof fn lemma_one_fixed_cut(
    title: Seq<char>,
    split_header: Option<bool>,
    email: Seq<char>,
    fixed_cut: i64,
    stack_order: i32,
)
    ensures
        ({
            let entry = fixed_cut_entry(email, fixed_cut, stack_order);
            let sent = collection_object(collection_of(title, split_header, seq![entry]));
            &&& sent.contains_key("split_payments"@)
            &&& sent["split_payments"@] == Json::Array(
                seq![Json::Object(split_payment_object(entry))],
            )
            &&& holds(split_payment_object(entry), "fixed_cut"@, Json::Int(fixed_cut as int))
            &&& !split_payment_object(entry).contains_key("variable_cut"@)
        }),
{
    let entry = fixed_cut_entry(email, fixed_cut, stack_order);
    lemma_collection_object(collection_of(title, split_header, seq![entry]));
    lemma_split_payment_object(entry);
    assert(encoded_all::<SplitPayment>(seq![entry]) =~= seq![
        Json::Object(split_payment_object(entry)),
    ]);
}

/// Collects the fields of a collection to create.
pub struct CreateCollectionBuilder<'a> {
    client: &'a BillplzClient,
    title: String,
    split_header: Option<bool>,
    split_payments: Vec<SplitPayment>,
}

impl<'a> CreateCollectionBuilder<'a> {
    /// No split payment of a builder names both cuts.
    #[verifier::type_invariant]
    spec fn exclusive_cuts(self) -> bool {
        forall|i: int|
            0 <= i < self.split_payments.len() ==> at_most_one_cut(
                #[trigger] self.split_payments[i]@,
            )
    }

    /// The client the request will be made for.
    pub closed spec fn client(&self) -> ClientView {
        self.client@
    }

    /// The title of the collection.
    pub closed spec fn title(&self) -> Seq<char> {
        self.title@
    }

    /// The split-header flag, if it was set.
    pub closed spec fn header(&self) -> Option<bool> {
        self.split_header
    }

    /// The split payments added so far, in the order they were added.
    pub closed spec fn entries(&self) -> Seq<SplitPaymentView> {
        self.split_payments.deep_view()
    }

    /// A builder for a collection with the given title, no flag and no split
    /// payment.
    pub(crate) fn new(client: &'a BillplzClient, title: &str) -> (builder: Self)
        ensures
            builder.client() == client@,
            builder.title() == title@,
            builder.header().is_none(),
            builder.entries() == Seq::<SplitPaymentView>::empty(),
    {
        CreateCollectionBuilder {
            client,
            title: String::from_str(title),
            split_header: None,
            split_payments: Vec::new(),
        }
    }

    /// Sets the split-header flag.
    pub fn split_header(self, split_header: bool) -> (builder: Self)
        ensures
            builder.client() == self.client(),
            builder.title() == self.title(),
            builder.header() == Some(split_header),
            builder.entries() == self.entries(),
    {
        proof {
            use_type_invariant(&self);
        }
        let CreateCollectionBuilder { client, title, split_header: _, split_payments } = self;
        CreateCollectionBuilder { client, title, split_header: Some(split_header), split_payments }
    }

    /// Adds a split payment at the end.
    fn add(self, entry: SplitPayment) -> (builder: Self)
        requires
            at_most_one_cut(entry@),
        ensures
            builder.client() == self.client(),
            builder.title() == self.title(),
            builder.header() == self.header(),
            builder.entries() == self.entries().push(entry@),
    {
        proof {
            use_type_invariant(&self);
        }
        let CreateCollectionBuilder { client, title, split_header, split_payments } = self;
        let mut split_payments = split_payments;
        split_payments.push(entry);
        CreateCollectionBuilder { client, title, split_header, split_payments }
    }

    /// Adds a split payment that names the recipient and the order only.
    pub fn split_payment(self, email: &str, stack_order: i32) -> (builder: Self)
        ensures
            builder.client() == self.client(),
            builder.title() == self.title(),
            builder.header() == self.header(),
            builder.entries() == self.entries().push(plain_entry(email@, stack_order)),
    {
        self.add(
            SplitPayment {
                email: String::from_str(email),
                fixed_cut: None,
                variable_cut: None,
                stack_order,
            },
        )
    }

    /// Adds a split payment of a fixed amount.
    pub fn split_payment_with_fixed_cut(
        self,
        email: &str,
        fixed_cut: i64,
        stack_order: i32,
    ) -> (builder: Self)
        ensures
            builder.client() == self.client(),
            builder.title() == self.title(),
            builder.header() == self.header(),
            builder.entries() == self.entries().push(
                fixed_cut_entry(email@, fixed_cut, stack_order),
            ),
    {
        self.add(
            SplitPayment {
                email: String::from_str(email),
                fixed_cut: Some(fixed_cut),
                variable_cut: None,
                stack_order,
            },
        )
    }

    /// Adds a split payment of a share.
    pub fn split_payment_with_variable_cut(
        self,
        email: &str,
        variable_cut: &str,
        stack_order: i32,
    ) -> (builder: Self)
        ensures
            builder.client() == self.client(),
            builder.title() == self.title(),
            builder.header() == self.header(),
            builder.entries() == self.entries().push(
                variable_cut_entry(email@, variable_cut@, stack_order),
            ),
    {
        self.add(
            SplitPayment {
                email: String::from_str(email),
                fixed_cut: None,
                variable_cut: Some(String::from_str(variable_cut)),
                stack_order,
            },
        )
    }

    /// Consumes the builder and gives the request that creates the
    /// collection. No split payment in it names both cuts. The reply goes to
    /// [`BillplzClient::parse_response`].
    pub fn send(self) -> (request: Request)
        ensures
            request@ == create_collection_request(
                self.client(),
                collection_of(self.title(), self.header(), self.entries()),
            ),
            forall|i: int|
                0 <= i < self.entries().len() ==> at_most_one_cut(#[trigger] self.entries()[i]),
    {
        proof {
            use_type_invariant(&self);
            assert forall|i: int| 0 <= i < self.entries().len() implies at_most_one_cut(
                #[trigger] self.entries()[i],
            ) by {
                assert(self.entries()[i] == self.split_payments[i]@);
            }
        }
        let client = self.client;
        let split_payments = if self.split_payments.len() == 0 {
            None
        } else {
            Some(self.split_payments)
        };
        let collection = Collection {
            title: self.title,
            split_header: self.split_header,
            split_payments,
        };
        let body = collection.to_json();
        client.create("/api/v4/collections", body)
    }
}

impl BillplzClient {
    /// The request that reads the collection `collection_id`. The reply goes
    /// to [`BillplzClient::parse_response`].
    pub fn get_collection(&self, collection_id: &str) -> (request: Request)
        ensures
            request@ == get_collection_request(self@, collection_id@),
    {
        self.read("/api/v4/collections/", collection_id)
    }

    /// Starts a collection.
    pub fn create_collection(&self, title: &str) -> (builder: CreateCollectionBuilder<'_>)
        ensures
            builder.client() == self@,
            builder.title() == title@,
            builder.header().is_none(),
            builder.entries() == Seq::<SplitPaymentView>::empty(),
    {
        CreateCollectionBuilder::new(self, title)
    }
}

} // verus!
