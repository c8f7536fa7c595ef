//! Collection transfer: a run of boundary records handed to the host as one
//! block, and taken back apart on release.
use vstd::prelude::*;

use crate::records::{
    menu_encodable, menu_encoded_as, search_encodable, search_encoded_as, CContextMenuResult,
    CSearchResult, ContextMenuResult, SearchResult,
};

verus! {

/// `c` holds the boundary twin of each result of `v`, in the same order.
pub open spec fn search_packed(v: Seq<SearchResult>, c: Seq<CSearchResult>) -> bool {
    &&& c.len() == v.len()
    &&& forall|i: int| 0 <= i < v.len() ==> search_encoded_as(v[i], #[trigger] c[i])
}

/// `c` holds the boundary twin of each entry of `v`, in the same order.
pub open spec fn menu_packed(v: Seq<ContextMenuResult>, c: Seq<CContextMenuResult>) -> bool {
    &&& c.len() == v.len()
    &&& forall|i: int| 0 <= i < v.len() ==> menu_encoded_as(v[i], #[trigger] c[i])
}

/// The search records handed to the host as one block.
#[derive(Debug)]
pub struct SearchResults {
    records: Vec<CSearchResult>,
}

/// The context-menu records handed to the host as one block.
#[derive(Debug)]
pub struct ContextMenuResults {
    records: Vec<CContextMenuResult>,
}

impl View for SearchResults {
    type V = Seq<CSearchResult>;

    closed spec fn view(&self) -> Seq<CSearchResult> {
        self.records@
    }
}

impl View for ContextMenuResults {
    type V = Seq<CContextMenuResult>;

    closed spec fn view(&self) -> Seq<CContextMenuResult> {
        self.records@
    }
}

impl SearchResults {
    /// Converts each result in order into a fresh boundary record.
    pub fn pack(results: &Vec<SearchResult>) -> (r: SearchResults)
        requires
            forall|i: int| 0 <= i < results.len() ==> search_encodable(#[trigger] results@[i]),
        ensures
            search_packed(results@, r@),
    {
        let mut records: Vec<CSearchResult> = Vec::new();
        let mut i: usize = 0;
        while i < results.len()
            invariant
                i <= results.len(),
                forall|j: int| 0 <= j < results.len() ==> search_encodable(#[trigger] results@[j]),
                search_packed(results@.take(i as int), records@),
            decreases results.len() - i,
        {
            let c = results[i].to_boundary();
            records.push(c);
            i = i + 1;
            assert(results@.take(i as int).drop_last() == results@.take(i - 1));
        }
        assert(results@.take(i as int) == results@);
        SearchResults { records }
    }

    /// The number of records.
    pub fn len(&self) -> (n: usize)
        ensures
            n == self@.len(),
    {
        self.records.len()
    }

    /// The record at index `i`.
    pub fn get(&self, i: usize) -> (c: &CSearchResult)
        requires
            i < self@.len(),
        ensures
            *c == self@[i as int],
    {
        &self.records[i]
    }
}

impl ContextMenuResults {
    /// Converts each entry in order into a fresh boundary record.
    pub fn pack(entries: &Vec<ContextMenuResult>) -> (r: ContextMenuResults)
        requires
            forall|i: int| 0 <= i < entries.len() ==> menu_encodable(#[trigger] entries@[i]),
        ensures
            menu_packed(entries@, r@),
    {
        let mut records: Vec<CContextMenuResult> = Vec::new();
        let mut i: usize = 0;
        while i < entries.len()
            invariant
                i <= entries.len(),
                forall|j: int| 0 <= j < entries.len() ==> menu_encodable(#[trigger] entries@[j]),
                menu_packed(entries@.take(i as int), records@),
            decreases entries.len() - i,
        {
            let c = entries[i].to_boundary();
            records.push(c);
            i = i + 1;
            assert(entries@.take(i as int).drop_last() == entries@.take(i - 1));
        }
        assert(entries@.take(i as int) == entries@);
        ContextMenuResults { records }
    }

    /// The number of records.
    pub fn len(&self) -> (n: usize)
        ensures
            n == self@.len(),
    {
        self.records.len()
    }

    /// The record at index `i`.
    pub fn get(&self, i: usize) -> (c: &CContextMenuResult)
        requires
            i < self@.len(),
        ensures
            *c == self@[i as int],
    {
        &self.records[i]
    }
}

/// Releases the block of a search collection. Its records, and with them
/// their buffers, go back to the caller, who releases each with
/// `drop_search_result`.
pub fn drop_search(srs: SearchResults) -> (records: Vec<CSearchResult>)
    ensures
        records@ == srs@,
{
    srs.records
}

/// Releases the block of a context-menu collection. Its records go back to
/// the caller, who releases each with `drop_context_menu_result`.
pub fn drop_context_menu(css: ContextMenuResults) -> (records: Vec<CContextMenuResult>)
    ensures
        records@ == css@,
{
    css.records
}

} // verus!
