//! The values that travel between the view, the query coordinator and the
//! search provider.

use crate::outside::{path_from_string, path_from_text};
use std::path::PathBuf;
use vstd::prelude::*;

verus! {

/// One match as the search provider reports it.
#[derive(Debug, PartialEq, Eq)]
pub struct NativeItem {
    pub display_name: String,
    pub path: String,
}

/// What a [`NativeItem`] holds, as sequences of characters.
pub struct NativeItemView {
    pub display_name: Seq<char>,
    pub path: Seq<char>,
}

impl View for NativeItem {
    type V = NativeItemView;

    open spec fn view(&self) -> NativeItemView {
        NativeItemView { display_name: self.display_name@, path: self.path@ }
    }
}

/// One match as the view shows it.
#[derive(Debug, PartialEq, Eq)]
pub struct SearchItem {
    pub name: String,
    pub path: PathBuf,
}

/// What a [`SearchItem`] holds.
pub struct SearchItemView {
    pub name: Seq<char>,
    pub path: PathBuf,
}

impl View for SearchItem {
    type V = SearchItemView;

    open spec fn view(&self) -> SearchItemView {
        SearchItemView { name: self.name@, path: self.path }
    }
}

/// The item that the view shows for a match of the provider: the same
/// name, and the path made of the provider's path text.
pub open spec fn item_of(native: NativeItemView) -> SearchItemView {
    SearchItemView { name: native.display_name, path: path_from_text(native.path) }
}

/// The items that the view shows for the matches of the provider, in the
/// provider's order.
pub open spec fn items_of(natives: Seq<NativeItemView>) -> Seq<SearchItemView> {
    Seq::new(natives.len(), |i: int| item_of(natives[i]))
}

/// The answer to one query: the matches in the provider's order. An answer
/// without matches is an answer; a query that is still pending has none.
#[derive(Debug, PartialEq, Eq)]
pub struct SearchResponse {
    pub results: Vec<SearchItem>,
}

impl View for SearchResponse {
    type V = Seq<SearchItemView>;

    open spec fn view(&self) -> Seq<SearchItemView> {
        Seq::new(self.results@.len(), |i: int| self.results@[i]@)
    }
}

/// One request to the query coordinator: the text to look up, and the
/// sending end of the single-use channel on which the answer is expected.
/// A request that is replaced by a newer one is never answered.
pub struct SearchQuery {
    pub query: String,
    pub response_tx: oneshot::Sender<SearchResponse>,
}

/// The views of a sequence of native items.
pub open spec fn native_views(items: Seq<NativeItem>) -> Seq<NativeItemView> {
    Seq::new(items.len(), |i: int| items[i]@)
}

impl SearchResponse {
    /// The answer "no matches".
    pub fn empty() -> (response: Self)
        ensures
            response@ == Seq::<SearchItemView>::empty(),
    {
        SearchResponse { results: Vec::new() }
    }

    /// The answer that holds the provider's matches, each as a
    /// [`SearchItem`], in the provider's order.
    pub fn from_native(items: Vec<NativeItem>) -> (response: Self)
        ensures
            response@ == items_of(native_views(items@)),
    {
        let ghost natives = native_views(items@);
        let mut results: Vec<SearchItem> = Vec::new();
        for item in it: items.into_iter()
            invariant
                it.seq() == items@,
                results@.len() == it.index(),
                forall|k: int| 0 <= k < it.index() ==> (#[trigger] results@[k])@ == item_of(items@[k]@),
        {
            let NativeItem { display_name, path } = item;
            results.push(SearchItem { name: display_name, path: path_from_string(path) });
        }
        let response = SearchResponse { results };
        assert(response@ =~= items_of(natives));
        response
    }

    /// The number of matches.
    pub fn len(&self) -> (n: usize)
        ensures
            n == self@.len(),
    {
        self.results.len()
    }

    /// Whether the answer is "no matches".
    pub fn is_empty(&self) -> (empty: bool)
        ensures
            empty == (self@.len() == 0),
    {
        self.results.len() == 0
    }
}

} // verus!
