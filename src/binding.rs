//! The entry points that a host calls, each built from the codec, the
//! plugin's callback, the record transcoder and collection transfer.
use vstd::prelude::*;

use crate::codec::{c_buffer, decode_utf16, nul_free, take_cs_string, to_c_str, valid_utf16, CStrBuf};
use crate::collection::{menu_packed, search_packed, ContextMenuResults, SearchResults};
use crate::records::{
    all_valid_utf16, cs_search_fields, menu_encodable, search_decoded_from, search_encodable,
    CSSearchResult, ContextMenuResult, SearchResult,
};

verus! {

/// The progress of a search that a plugin walks through result by result.
#[derive(Debug)]
pub struct SearchState {
    pub query: String,
    pub results: Vec<SearchResult>,
    pub next_result: usize,
    pub finished: bool,
}

/// The identity string that `which` selects: 0 the id, 1 the name,
/// 2 the description, and the empty string for any other tag.
pub open spec fn plugin_info_text(
    id: Seq<char>,
    name: Seq<char>,
    desc: Seq<char>,
    which: u8,
) -> Seq<char> {
    if which == 0 {
        id
    } else if which == 1 {
        name
    } else if which == 2 {
        desc
    } else {
        seq![]
    }
}

/// Hands one of the plugin's three identity strings to the host.
pub fn get_plugin_info(id: &str, name: &str, desc: &str, which: u8) -> (r: CStrBuf)
    requires
        nul_free(id@),
        nul_free(name@),
        nul_free(desc@),
    ensures
        r@ == c_buffer(plugin_info_text(id@, name@, desc@, which)),
{
    match which {
        0 => to_c_str(id),
        1 => to_c_str(name),
        2 => to_c_str(desc),
        _ => {
            proof {
                reveal_strlit("");
            }
            to_c_str("")
        },
    }
}

/// Runs the plugin's search on a query that the host handed in as UTF-16
/// units, and hands the results to the host in the order the plugin gave
/// them.
pub fn init_search<F: Fn(String) -> Vec<SearchResult>>(search: F, utf16: &[u16]) -> (r:
    SearchResults)
    requires
        valid_utf16(utf16@),
        forall|q: String| q@ == decode_utf16(utf16@) ==> #[trigger] search.requires((q,)),
        forall|q: String, v: Vec<SearchResult>|
            #[trigger] search.ensures((q,), v) ==> forall|i: int|
                0 <= i < v.len() ==> search_encodable(#[trigger] v@[i]),
    ensures
        exists|q: String, v: Vec<SearchResult>|
            q@ == decode_utf16(utf16@) && #[trigger] search.ensures((q,), v) && search_packed(
                v@,
                r@,
            ),
{
    let query = take_cs_string(utf16);
    let ghost q = query;
    let results = search(query);
    let r = SearchResults::pack(&results);
    assert(search.ensures((q,), results));
    r
}

/// Decodes a search result that the host handed back, asks the plugin for
/// its context menu, and hands the entries to the host in the order the
/// plugin gave them.
pub fn get_context_menu<F: Fn(SearchResult) -> Vec<ContextMenuResult>>(
    context_menu: F,
    cssr: CSSearchResult,
) -> (r: ContextMenuResults)
    requires
        all_valid_utf16(cs_search_fields(cssr)),
        forall|sr: SearchResult| search_decoded_from(cssr, sr) ==> #[trigger] context_menu.requires(
            (sr,),
        ),
        forall|sr: SearchResult, v: Vec<ContextMenuResult>|
            #[trigger] context_menu.ensures((sr,), v) ==> forall|i: int|
                0 <= i < v.len() ==> menu_encodable(#[trigger] v@[i]),
    ensures
        exists|sr: SearchResult, v: Vec<ContextMenuResult>|
            search_decoded_from(cssr, sr) && #[trigger] context_menu.ensures((sr,), v)
                && menu_packed(v@, r@),
{
    let ghost host = cssr;
    let sr = cssr.from_boundary();
    let ghost decoded = sr;
    let entries = context_menu(sr);
    let r = ContextMenuResults::pack(&entries);
    assert(context_menu.ensures((decoded,), entries));
    assert(search_decoded_from(host, decoded));
    r
}

} // verus!
