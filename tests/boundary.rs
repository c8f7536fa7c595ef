use rustrun::{
    drop_context_menu, drop_context_menu_result, drop_search, drop_search_result, free_c_string,
    get_context_menu, get_plugin_info, init_search, take_c_string, take_cs_string, to_c_str,
    CSSearchResult, CStrBuf, ContextMenuResult, ContextMenuResults, SearchResult, SearchResults,
};

fn units(s: &str) -> Vec<u16> {
    s.encode_utf16().collect()
}

fn text(b: &CStrBuf) -> String {
    let bytes = b.as_bytes_with_nul();
    assert_eq!(bytes.last(), Some(&0u8));
    String::from_utf8(bytes[..bytes.len() - 1].to_vec()).unwrap()
}

fn result(q: &str, ico: &str, title: &str, sub: &str, ta: &str, tb: &str) -> SearchResult {
    SearchResult {
        query_text_display: q.to_string(),
        ico_path: ico.to_string(),
        title: title.to_string(),
        subtitle: sub.to_string(),
        tooltip: (ta.to_string(), tb.to_string()),
    }
}

fn menu_entry(name: &str, key: i32, mods: i32) -> ContextMenuResult {
    ContextMenuResult {
        plugin_name: "plug".to_string(),
        title: name.to_string(),
        font_family: "Segoe".to_string(),
        glyph: "\u{E8C8}".to_string(),
        accelerator_key: key,
        accelerator_modifiers: mods,
    }
}

fn host_copy(c: &rustrun::CSearchResult) -> CSSearchResult {
    CSSearchResult {
        query_text_display: units(&text(&c.query_text_display)),
        ico_path: units(&text(&c.ico_path)),
        title: units(&text(&c.title)),
        subtitle: units(&text(&c.subtitle)),
        tooltip_a: units(&text(&c.tooltip_a)),
        tooltip_b: units(&text(&c.tooltip_b)),
    }
}

fn release_search(srs: SearchResults) {
    for r in drop_search(srs) {
        drop_search_result(r);
    }
}

fn release_menu(cms: ContextMenuResults) {
    for r in drop_context_menu(cms) {
        drop_context_menu_result(r);
    }
}

#[test]
fn utf16_round_trip_plain_and_empty() {
    for s in ["", "ab", "Hello, World", "café", "日本語"] {
        assert_eq!(take_cs_string(&units(s)), s);
    }
}

#[test]
fn utf16_round_trip_surrogate_pairs() {
    let s = "a😀b𝄞";
    let u = units(s);
    assert_eq!(u.len(), 6);
    let decoded = take_cs_string(&u);
    assert_eq!(decoded, s);
    assert_eq!(decoded.chars().count(), 4);
}

#[test]
fn utf16_decodes_exact_units() {
    assert_eq!(take_cs_string(&[0x0061, 0x0062]), "ab");
    assert_eq!(take_cs_string(&[0xD83D, 0xDE00]), "😀");
    assert_eq!(take_cs_string(&[]), "");
}

#[test]
fn to_c_str_frames_utf8_bytes() {
    let b = to_c_str("Hello");
    assert_eq!(b.as_bytes_with_nul(), b"Hello\0");
    free_c_string(b);
    let e = to_c_str("é");
    assert_eq!(e.as_bytes_with_nul(), &[0xC3, 0xA9, 0]);
    free_c_string(e);
    let empty = to_c_str("");
    assert_eq!(empty.as_bytes_with_nul(), &[0]);
    free_c_string(empty);
}

#[test]
fn take_c_string_drops_terminator() {
    assert_eq!(take_c_string(to_c_str("Hi 😀")), "Hi 😀".as_bytes().to_vec());
    assert_eq!(take_c_string(to_c_str("")), Vec::<u8>::new());
}

#[test]
fn plugin_info_selects_by_tag() {
    let (id, name, desc) = ("org.example", "Example", "Finds things");
    assert_eq!(take_c_string(get_plugin_info(id, name, desc, 0)), b"org.example".to_vec());
    assert_eq!(take_c_string(get_plugin_info(id, name, desc, 1)), b"Example".to_vec());
    assert_eq!(take_c_string(get_plugin_info(id, name, desc, 2)), b"Finds things".to_vec());
    assert_eq!(take_c_string(get_plugin_info(id, name, desc, 3)), Vec::<u8>::new());
    assert_eq!(take_c_string(get_plugin_info(id, name, desc, 255)), Vec::<u8>::new());
}

#[test]
fn search_scenario_single_result() {
    let srs = init_search(
        |q: String| {
            assert_eq!(q, "ab");
            vec![result("ab", "icon.png", "Hello", "World", "tip a", "tip b")]
        },
        &[0x0061, 0x0062],
    );
    assert_eq!(srs.len(), 1);
    assert_eq!(text(&srs.get(0).title), "Hello");
    assert_eq!(text(&srs.get(0).subtitle), "World");
    let records = drop_search(srs);
    assert_eq!(records.len(), 1);
    for r in records {
        drop_search_result(r);
    }
}

#[test]
fn search_preserves_order() {
    let srs = init_search(
        |_q: String| {
            vec![
                result("q", "i", "A", "s", "x", "y"),
                result("q", "i", "B", "s", "x", "y"),
                result("q", "i", "C", "s", "x", "y"),
            ]
        },
        &units("abc"),
    );
    assert_eq!(srs.len(), 3);
    assert_eq!(text(&srs.get(0).title), "A");
    assert_eq!(text(&srs.get(1).title), "B");
    assert_eq!(text(&srs.get(2).title), "C");
    release_search(srs);
}

#[test]
fn search_empty_sequence() {
    let srs = init_search(|_q: String| Vec::new(), &units(""));
    assert_eq!(srs.len(), 0);
    let records = drop_search(srs);
    assert!(records.is_empty());
}

#[test]
fn context_menu_empty_sequence() {
    let host = host_copy(&result("a", "b", "c", "d", "e", "f").to_boundary());
    let cms = get_context_menu(|_r: SearchResult| Vec::new(), host);
    assert_eq!(cms.len(), 0);
    release_menu(cms);
}

#[test]
fn field_fidelity_through_host() {
    let original = result("query ✓", "C:\\icons\\a.png", "Title 😀", "Sub", "Tip one", "Tip two");
    let boundary = original.to_boundary();
    let host = host_copy(&boundary);
    drop_search_result(boundary);
    let back = host.from_boundary();
    assert_eq!(back.query_text_display, "query ✓");
    assert_eq!(back.ico_path, "C:\\icons\\a.png");
    assert_eq!(back.title, "Title 😀");
    assert_eq!(back.subtitle, "Sub");
    assert_eq!(back.tooltip.0, "Tip one");
    assert_eq!(back.tooltip.1, "Tip two");
}

#[test]
fn context_menu_decodes_record_and_copies_integers() {
    let host = host_copy(&result("q", "ico", "Picked", "sub", "ta", "tb").to_boundary());
    let cms = get_context_menu(
        |r: SearchResult| {
            assert_eq!(r.title, "Picked");
            assert_eq!(r.tooltip.1, "tb");
            vec![menu_entry("Open", 13, 2), menu_entry("Copy", 67, -1)]
        },
        host,
    );
    assert_eq!(cms.len(), 2);
    assert_eq!(text(&cms.get(0).title), "Open");
    assert_eq!(cms.get(0).accelerator_key, 13);
    assert_eq!(cms.get(0).accelerator_modifiers, 2);
    assert_eq!(text(&cms.get(1).title), "Copy");
    assert_eq!(text(&cms.get(1).glyph), "\u{E8C8}");
    assert_eq!(cms.get(1).accelerator_key, 67);
    assert_eq!(cms.get(1).accelerator_modifiers, -1);
    release_menu(cms);
}

#[test]
fn context_menu_record_to_boundary() {
    let c = menu_entry("Run", i32::MAX, i32::MIN).to_boundary();
    assert_eq!(text(&c.plugin_name), "plug");
    assert_eq!(text(&c.font_family), "Segoe");
    assert_eq!(c.accelerator_key, i32::MAX);
    assert_eq!(c.accelerator_modifiers, i32::MIN);
    drop_context_menu_result(c);
}

#[test]
fn release_cycle_for_every_allocation() {
    let srs = init_search(|q: String| vec![result(&q, "i", "t", "s", "a", "b")], &units("x"));
    release_search(srs);
    let host = host_copy(&result("q", "i", "t", "s", "a", "b").to_boundary());
    let cms = get_context_menu(|_r: SearchResult| vec![menu_entry("m", 1, 0)], host);
    release_menu(cms);
    free_c_string(get_plugin_info("i", "n", "d", 1));
}
