//! The in-memory history of submitted queries: an append-only log.
//!
//! The store itself is not shared. Whoever serves concurrent requests keeps one
//! store behind a lock; `append` takes `&mut self`, so every append runs with
//! exclusive access, and the appends of one store are totally ordered.

use vstd::prelude::*;

verus! {

/// A history after `query` was appended to it.
pub open spec fn appended(history: Seq<Seq<char>>, query: Seq<char>) -> Seq<Seq<char>> {
    history.push(query)
}

/// A history after the queries of `order` were appended to it one at a time,
/// `order[0]` first.
pub open spec fn appended_all(history: Seq<Seq<char>>, order: Seq<Seq<char>>) -> Seq<Seq<char>>
    decreases order.len(),
{
    if order.len() == 0 {
        history
    } else {
        appended(appended_all(history, order.drop_last()), order.last())
    }
}

/// The ordered list of the queries submitted so far, oldest first.
///
/// Its view is the sequence of the stored texts. Entries are never changed or
/// removed.
pub struct HistoryStore {
    queries: Vec<String>,
}

impl View for HistoryStore {
    type V = Seq<Seq<char>>;

    closed spec fn view(&self) -> Seq<Seq<char>> {
        self.queries.deep_view()
    }
}

impl HistoryStore {
    /// An empty store.
    pub fn new() -> (store: HistoryStore)
        ensures
            store@ == Seq::<Seq<char>>::empty(),
    {
        HistoryStore { queries: Vec::new() }
    }

    /// Appends `query` as the newest entry and returns a copy of the whole
    /// history, the new entry last. Every text is accepted, the empty one too.
    pub fn append(&mut self, query: String) -> (snapshot: Vec<String>)
        ensures
            final(self)@ == appended(old(self)@, query@),
            snapshot.deep_view() == final(self)@,
    {
        self.queries.push(query);
        self.snapshot()
    }

    /// A copy of the whole history, oldest entry first. The store is left as
    /// it is.
    pub fn snapshot(&self) -> (snapshot: Vec<String>)
        ensures
            snapshot.deep_view() == self@,
    {
        self.queries.clone()
    }

    /// The number of entries.
    pub fn len(&self) -> (n: usize)
        ensures
            n == self@.len(),
    {
        self.queries.len()
    }
}

/// Appending one at a time keeps what the history held and puts the new
/// entries behind it in the order in which they were appended: the entry of
/// whoever got exclusive access first stands first.
pub proof fn lemma_appended_all_in_order(history: Seq<Seq<char>>, order: Seq<Seq<char>>)
    ensures
        appended_all(history, order) == history + order,
        appended_all(history, order).len() == history.len() + order.len(),
        forall|i: int| 0 <= i < history.len() ==> appended_all(history, order)[i] == history[i],
        forall|k: int|
            0 <= k < order.len() ==> #[trigger] appended_all(history, order)[history.len() + k]
                == order[k],
    decreases order.len(),
{
    if order.len() > 0 {
        lemma_appended_all_in_order(history, order.drop_last());
    }
}

/// No submission is lost, doubled or altered, whatever the order in which
/// concurrent submissions reach the store. `submitted` lists the submissions,
/// and `order` is the same texts in the order in which their appends ran on a
/// store that was empty. The store then holds one entry for each submission,
/// each text as it was submitted; where the submitted texts all differ, so do
/// the entries.
pub proof fn lemma_submissions_preserved(submitted: Seq<Seq<char>>, order: Seq<Seq<char>>)
    requires
        order.to_multiset() == submitted.to_multiset(),
    ensures
        appended_all(Seq::empty(), order).len() == submitted.len(),
        appended_all(Seq::empty(), order).to_multiset() == submitted.to_multiset(),
        forall|i: int|
            0 <= i < submitted.len() ==> appended_all(Seq::empty(), order).contains(
                #[trigger] submitted[i],
            ),
        forall|k: int|
            0 <= k < appended_all(Seq::empty(), order).len() ==> submitted.contains(
                #[trigger] appended_all(Seq::empty(), order)[k],
            ),
        submitted.no_duplicates() ==> appended_all(Seq::empty(), order).no_duplicates(),
{
    let stored = appended_all(Seq::empty(), order);
    lemma_appended_all_in_order(Seq::empty(), order);
    vstd::seq_lib::to_multiset_len(order);
    vstd::seq_lib::to_multiset_len(submitted);
    assert forall|i: int| 0 <= i < submitted.len() implies stored.contains(
        #[trigger] submitted[i],
    ) by {
        vstd::seq_lib::to_multiset_contains(submitted, submitted[i]);
        vstd::seq_lib::to_multiset_contains(order, submitted[i]);
    }
    assert forall|k: int| 0 <= k < stored.len() implies submitted.contains(
        #[trigger] stored[k],
    ) by {
        vstd::seq_lib::to_multiset_contains(order, order[k]);
        vstd::seq_lib::to_multiset_contains(submitted, order[k]);
    }
    if submitted.no_duplicates() {
        submitted.lemma_multiset_has_no_duplicates();
        order.lemma_multiset_has_no_duplicates_conv();
    }
}

/// Reading twice with no append in between gives the same sequence: two
/// copies taken of one store are equal, entry by entry.
pub proof fn lemma_snapshot_idempotent(store: HistoryStore, first: Vec<String>, second: Vec<String>)
    requires
        first.deep_view() == store@,
        second.deep_view() == store@,
    ensures
        first.deep_view() == second.deep_view(),
        first.len() == second.len(),
        forall|i: int| 0 <= i < first.len() ==> first[i]@ == second[i]@,
{
    assert(second.deep_view().len() == second.len());
    assert forall|i: int| 0 <= i < first.len() implies first[i]@ == second[i]@ by {
        assert(second.deep_view()[i] == second[i]@);
    }
}

} // verus!
