//! Submitting a query: the query joins the history, and the whole history
//! goes back as a list.

use vstd::prelude::*;
use crate::fragment::HistoryFragment;
use crate::history::{appended, HistoryStore};

verus! {

/// The body of a submission: one text field, which may be empty.
#[derive(Clone, Debug, PartialEq, Eq)]
pub struct QueryRequest {
    pub query: String,
}

/// The items of the list that shows `history`: one per query, in the order
/// of the history.
pub open spec fn history_items(history: Seq<Seq<char>>) -> Seq<Seq<char>> {
    history
}

/// The list fragment of the history as it stands. The store is left as it is.
pub fn history_view(store: &HistoryStore) -> (fragment: HistoryFragment)
    ensures
        fragment@ == history_items(store@),
{
    HistoryFragment { queries: store.snapshot() }
}

/// Appends the submitted query to the history, as it came, and returns the
/// list fragment of the updated history: the new query is its last item.
/// The caller holds the store exclusively for the length of this call.
pub fn send_request(store: &mut HistoryStore, request: QueryRequest) -> (fragment: HistoryFragment)
    ensures
        final(store)@ == appended(old(store)@, request.query@),
        fragment@ == history_items(final(store)@),
{
    HistoryFragment { queries: store.append(request.query) }
}

/// The list of an empty history has no item, and after one submission to an
/// empty history the list has one item, the submitted text.
pub proof fn lemma_history_fragment_round_trip(query: Seq<char>)
    ensures
        history_items(Seq::empty()).len() == 0,
        history_items(appended(Seq::empty(), query)) == seq![query],
{
}

} // verus!
