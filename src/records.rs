//! The record transcoder: plugin records to flat boundary records and back.
use vstd::prelude::*;
use vstd::utf8::*;

use crate::codec::{
    c_buffer, decode_utf16, encode_utf16, free_c_string, lemma_c_buffer_round_trip,
    lemma_utf16_round_trip, nul_free, take_cs_string, to_c_str, valid_utf16, CStrBuf,
};

verus! {

/// A search result as the plugin produces it.
#[derive(Debug)]
pub struct SearchResult {
    pub query_text_display: String,
    pub ico_path: String,
    pub title: String,
    pub subtitle: String,
    pub tooltip: (String, String),
}

/// A search result on its way to the host: each field a buffer owned by the
/// plugin until the host releases it.
#[derive(Debug)]
pub struct CSearchResult {
    pub query_text_display: CStrBuf,
    pub ico_path: CStrBuf,
    pub title: CStrBuf,
    pub subtitle: CStrBuf,
    pub tooltip_a: CStrBuf,
    pub tooltip_b: CStrBuf,
}

/// A search result handed back by the host, each field as UTF-16 units.
#[derive(Clone, Debug)]
pub struct CSSearchResult {
    pub query_text_display: Vec<u16>,
    pub ico_path: Vec<u16>,
    pub title: Vec<u16>,
    pub subtitle: Vec<u16>,
    pub tooltip_a: Vec<u16>,
    pub tooltip_b: Vec<u16>,
}

/// A context-menu entry as the plugin produces it.
#[derive(Clone, Debug)]
pub struct ContextMenuResult {
    pub plugin_name: String,
    pub title: String,
    pub font_family: String,
    pub glyph: String,
    pub accelerator_key: i32,
    pub accelerator_modifiers: i32,
}

/// A context-menu entry on its way to the host.
#[derive(Debug)]
pub struct CContextMenuResult {
    pub plugin_name: CStrBuf,
    pub title: CStrBuf,
    pub font_family: CStrBuf,
    pub glyph: CStrBuf,
    pub accelerator_key: i32,
    pub accelerator_modifiers: i32,
}

/// The six strings of a search result, in field order.
pub open spec fn search_fields(r: SearchResult) -> Seq<Seq<char>> {
    seq![
        r.query_text_display@,
        r.ico_path@,
        r.title@,
        r.subtitle@,
        r.tooltip.0@,
        r.tooltip.1@,
    ]
}

/// The six buffers of a boundary search record, in field order.
pub open spec fn c_search_fields(c: CSearchResult) -> Seq<Seq<u8>> {
    seq![
        c.query_text_display@,
        c.ico_path@,
        c.title@,
        c.subtitle@,
        c.tooltip_a@,
        c.tooltip_b@,
    ]
}

/// The six unit sequences of a search record from the host, in field order.
pub open spec fn cs_search_fields(h: CSSearchResult) -> Seq<Seq<u16>> {
    seq![
        h.query_text_display@,
        h.ico_path@,
        h.title@,
        h.subtitle@,
        h.tooltip_a@,
        h.tooltip_b@,
    ]
}

/// The four strings of a context-menu entry, in field order.
pub open spec fn menu_fields(m: ContextMenuResult) -> Seq<Seq<char>> {
    seq![m.plugin_name@, m.title@, m.font_family@, m.glyph@]
}

/// The four buffers of a boundary context-menu record, in field order.
pub open spec fn c_menu_fields(c: CContextMenuResult) -> Seq<Seq<u8>> {
    seq![c.plugin_name@, c.title@, c.font_family@, c.glyph@]
}

/// Every string can be framed by a terminator.
pub open spec fn all_nul_free(fields: Seq<Seq<char>>) -> bool {
    forall|i: int| 0 <= i < fields.len() ==> nul_free(#[trigger] fields[i])
}

/// Every unit sequence is well-formed UTF-16.
pub open spec fn all_valid_utf16(fields: Seq<Seq<u16>>) -> bool {
    forall|i: int| 0 <= i < fields.len() ==> valid_utf16(#[trigger] fields[i])
}

/// A search result whose strings can all cross the boundary.
pub open spec fn search_encodable(r: SearchResult) -> bool {
    all_nul_free(search_fields(r))
}

/// A context-menu entry whose strings can all cross the boundary.
pub open spec fn menu_encodable(m: ContextMenuResult) -> bool {
    all_nul_free(menu_fields(m))
}

/// `c` holds, field by field, the host buffers of `r`'s strings.
pub open spec fn search_encoded_as(r: SearchResult, c: CSearchResult) -> bool {
    forall|i: int| 0 <= i < 6 ==> #[trigger] c_search_fields(c)[i] == c_buffer(search_fields(r)[i])
}

/// `c` holds, field by field, the host buffers of `m`'s strings, and its
/// integers verbatim.
pub open spec fn menu_encoded_as(m: ContextMenuResult, c: CContextMenuResult) -> bool {
    &&& forall|i: int| 0 <= i < 4 ==> #[trigger] c_menu_fields(c)[i] == c_buffer(menu_fields(m)[i])
    &&& c.accelerator_key == m.accelerator_key
    &&& c.accelerator_modifiers == m.accelerator_modifiers
}

/// `r` holds, field by field, the strings that `h`'s units encode.
pub open spec fn search_decoded_from(h: CSSearchResult, r: SearchResult) -> bool {
    forall|i: int| 0 <= i < 6 ==> #[trigger] search_fields(r)[i] == decode_utf16(cs_search_fields(h)[i])
}

impl SearchResult {
    /// Encodes every field for the host, each into a buffer of its own.
    pub fn to_boundary(&self) -> (c: CSearchResult)
        requires
            search_encodable(*self),
        ensures
            search_encoded_as(*self, c),
    {
        assert(forall|i: int| 0 <= i < 6 ==> nul_free(#[trigger] search_fields(*self)[i]));
        let c = CSearchResult {
            query_text_display: to_c_str(self.query_text_display.as_str()),
            ico_path: to_c_str(self.ico_path.as_str()),
            title: to_c_str(self.title.as_str()),
            subtitle: to_c_str(self.subtitle.as_str()),
            tooltip_a: to_c_str(self.tooltip.0.as_str()),
            tooltip_b: to_c_str(self.tooltip.1.as_str()),
        };
        assert(c_search_fields(c) =~= search_fields(*self).map_values(|s| c_buffer(s)));
        c
    }
}

impl ContextMenuResult {
    /// Encodes every string field for the host and copies the integers.
    pub fn to_boundary(&self) -> (c: CContextMenuResult)
        requires
            menu_encodable(*self),
        ensures
            menu_encoded_as(*self, c),
    {
        assert(forall|i: int| 0 <= i < 4 ==> nul_free(#[trigger] menu_fields(*self)[i]));
        let c = CContextMenuResult {
            plugin_name: to_c_str(self.plugin_name.as_str()),
            title: to_c_str(self.title.as_str()),
            font_family: to_c_str(self.font_family.as_str()),
            glyph: to_c_str(self.glyph.as_str()),
            accelerator_key: self.accelerator_key,
            accelerator_modifiers: self.accelerator_modifiers,
        };
        assert(c_menu_fields(c) =~= menu_fields(*self).map_values(|s| c_buffer(s)));
        c
    }
}

impl CSSearchResult {
    /// Decodes every field that the host handed in; the record is consumed.
    pub fn from_boundary(self) -> (r: SearchResult)
        requires
            all_valid_utf16(cs_search_fields(self)),
        ensures
            search_decoded_from(self, r),
    {
        assert(forall|i: int| 0 <= i < 6 ==> valid_utf16(#[trigger] cs_search_fields(self)[i]));
        let r = SearchResult {
            query_text_display: take_cs_string(self.query_text_display.as_slice()),
            ico_path: take_cs_string(self.ico_path.as_slice()),
            title: take_cs_string(self.title.as_slice()),
            subtitle: take_cs_string(self.subtitle.as_slice()),
            tooltip: (
                take_cs_string(self.tooltip_a.as_slice()),
                take_cs_string(self.tooltip_b.as_slice()),
            ),
        };
        assert(search_fields(r) =~= cs_search_fields(self).map_values(|u| decode_utf16(u)));
        r
    }
}

/// Releases the six buffers of a search record that the host is done with.
pub fn drop_search_result(csr: CSearchResult) {
    free_c_string(csr.query_text_display);
    free_c_string(csr.ico_path);
    free_c_string(csr.title);
    free_c_string(csr.subtitle);
    free_c_string(csr.tooltip_a);
    free_c_string(csr.tooltip_b);
}

/// Releases the four buffers of a context-menu record that the host is done
/// with.
pub fn drop_context_menu_result(cs: CContextMenuResult) {
    free_c_string(cs.plugin_name);
    free_c_string(cs.title);
    free_c_string(cs.font_family);
    free_c_string(cs.glyph);
}

/// What a host that mirrors the codec sends back for a buffer it received:
/// the buffer's UTF-8 contents, written again as UTF-16.
pub open spec fn host_reencode(buf: Seq<u8>) -> Seq<u16> {
    encode_utf16(decode_utf8(buf.drop_last()))
}

/// Field fidelity: a search result sent to the host with `to_boundary`,
/// written back by a host that mirrors the codec, and read with
/// `from_boundary` has every field exactly as before.
pub proof fn lemma_search_field_fidelity(
    r: SearchResult,
    c: CSearchResult,
    h: CSSearchResult,
    back: SearchResult,
)
    requires
        search_encoded_as(r, c),
        forall|i: int|
            0 <= i < 6 ==> #[trigger] cs_search_fields(h)[i] == host_reencode(c_search_fields(c)[i]),
        search_decoded_from(h, back),
    ensures
        all_valid_utf16(cs_search_fields(h)),
        search_fields(back) == search_fields(r),
{
    assert forall|i: int| 0 <= i < 6 implies valid_utf16(#[trigger] cs_search_fields(h)[i])
        && decode_utf16(cs_search_fields(h)[i]) == search_fields(r)[i] by {
        let s = search_fields(r)[i];
        assert(c_search_fields(c)[i] == c_buffer(s));
        lemma_c_buffer_round_trip(s);
        lemma_utf16_round_trip(s);
    }
    assert(search_fields(back) =~= search_fields(r));
}

} // verus!
