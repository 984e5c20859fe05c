//! The cached payload: one search result set, as the upstream lists it.
//!
//! Every value has a mathematical view. Strings are viewed as sequences of
//! characters and the list of places as a sequence, so that contracts can say
//! that two results are the same without speaking of allocations.

use vstd::prelude::*;

verus! {

/// How complete a result set is, as reported by the upstream.
#[derive(Clone, Copy, Debug, PartialEq, Eq, Structural)]
pub struct ResultMetadata {
    pub total_count: i32,
    pub pageable_count: i32,
    pub is_end: bool,
}

/// One place of a result set. The fields are carried through as they came;
/// nothing here reads them.
#[derive(Debug, PartialEq, Eq)]
pub struct ResultItem {
    pub id: String,
    pub name: String,
    pub category_name: String,
    pub category_group_code: String,
    pub category_group_name: String,
    pub phone: String,
    pub address_name: String,
    pub road_address_name: String,
    /// Longitude, as text.
    pub x: String,
    /// Latitude, as text.
    pub y: String,
    pub url: String,
    pub distance: String,
}

/// The view of a [`ResultItem`]: each field as a sequence of characters.
pub ghost struct ResultItemView {
    pub id: Seq<char>,
    pub name: Seq<char>,
    pub category_name: Seq<char>,
    pub category_group_code: Seq<char>,
    pub category_group_name: Seq<char>,
    pub phone: Seq<char>,
    pub address_name: Seq<char>,
    pub road_address_name: Seq<char>,
    pub x: Seq<char>,
    pub y: Seq<char>,
    pub url: Seq<char>,
    pub distance: Seq<char>,
}

impl View for ResultItem {
    type V = ResultItemView;

    open spec fn view(&self) -> ResultItemView {
        ResultItemView {
            id: self.id@,
            name: self.name@,
            category_name: self.category_name@,
            category_group_code: self.category_group_code@,
            category_group_name: self.category_group_name@,
            phone: self.phone@,
            address_name: self.address_name@,
            road_address_name: self.road_address_name@,
            x: self.x@,
            y: self.y@,
            url: self.url@,
            distance: self.distance@,
        }
    }
}

impl Clone for ResultItem {
    fn clone(&self) -> (copy: Self)
        ensures
            copy@ == self@,
    {
        ResultItem {
            id: self.id.clone(),
            name: self.name.clone(),
            category_name: self.category_name.clone(),
            category_group_code: self.category_group_code.clone(),
            category_group_name: self.category_group_name.clone(),
            phone: self.phone.clone(),
            address_name: self.address_name.clone(),
            road_address_name: self.road_address_name.clone(),
            x: self.x.clone(),
            y: self.y.clone(),
            url: self.url.clone(),
            distance: self.distance.clone(),
        }
    }
}

/// The whole result set for one keyword: the unit that is cached.
/// The order of `items` is the upstream's and is kept.
#[derive(Debug, PartialEq, Eq)]
pub struct SearchResult {
    pub metadata: ResultMetadata,
    pub items: Vec<ResultItem>,
}

/// The view of a [`SearchResult`].
pub ghost struct SearchResultView {
    pub metadata: ResultMetadata,
    pub items: Seq<ResultItemView>,
}

impl View for SearchResult {
    type V = SearchResultView;

    open spec fn view(&self) -> SearchResultView {
        SearchResultView {
            metadata: self.metadata,
            items: Seq::new(self.items@.len(), |i: int| self.items@[i]@),
        }
    }
}

impl Clone for SearchResult {
    fn clone(&self) -> (copy: Self)
        ensures
            copy@ == self@,
    {
        let mut items: Vec<ResultItem> = Vec::new();
        let mut i: usize = 0;
        while i < self.items.len()
            invariant
                i <= self.items@.len(),
                items@.len() == i,
                forall|j: int| 0 <= j < i ==> items@[j]@ == self.items@[j]@,
            decreases self.items@.len() - i,
        {
            items.push(self.items[i].clone());
            i += 1;
        }
        let copy = SearchResult { metadata: self.metadata, items };
        assert(copy@.items =~= self@.items);
        copy
    }
}

} // verus!
