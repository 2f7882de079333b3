//! Payout collections: the named groupings that payouts are made under.

use vstd::prelude::*;
use crate::codec::ToJson;
use crate::json::{self, no_members, value_view, Json};

verus! {

/// The request that creates a payout collection.
#[derive(Debug, Clone, PartialEq, Eq)]
pub struct PayoutCollection {
    pub title: String,
}

/// [`PayoutCollection`] as plain mathematical values.
pub struct PayoutCollectionView {
    pub title: Seq<char>,
}

impl DeepView for PayoutCollection {
    type V = PayoutCollectionView;

    open spec fn deep_view(&self) -> PayoutCollectionView {
        PayoutCollectionView { title: self.title@ }
    }
}

impl View for PayoutCollection {
    type V = PayoutCollectionView;

    open spec fn view(&self) -> PayoutCollectionView {
        self.deep_view()
    }
}

/// The members of the object a payout collection is sent as.
pub open spec fn payout_collection_object(p: PayoutCollectionView) -> Map<Seq<char>, Json> {
    no_members().insert("title"@, Json::Str(p.title))
}

impl ToJson for PayoutCollection {
    open spec fn encoded(p: PayoutCollectionView) -> Json {
        Json::Object(payout_collection_object(p))
    }

    fn to_json(&self) -> (v: serde_json::Value)
        ensures
            value_view(v) == Json::Object(payout_collection_object(self@)),
    {
        let mut m = json::members();
        json::insert(&mut m, "title", json::string(self.title.as_str()));
        json::object(m)
    }
}

} // verus!
