//! Marshaling and ownership transfer between a plugin and a host that speaks
//! UTF-16 on its side of the boundary.
//!
//! The host hands strings in as UTF-16 code units with an explicit length;
//! the plugin hands strings back as NUL-terminated UTF-8 buffers that it owns
//! until the host gives them back through a release call.
pub mod binding;
pub mod codec;
pub mod collection;
pub mod records;

pub use binding::{get_context_menu, get_plugin_info, init_search, SearchState};
pub use codec::{free_c_string, take_c_string, take_cs_string, to_c_str, CStrBuf};
pub use collection::{drop_context_menu, drop_search, ContextMenuResults, SearchResults};
pub use records::{
    drop_context_menu_result, drop_search_result, CContextMenuResult, CSSearchResult, CSearchResult,
    ContextMenuResult, SearchResult,
};
