use hako_server::definition::{
    default_as_tcp, default_as_true, default_interval, default_retries, default_timeout,
};
use hako_server::keyed_map::KeyedMap;
use hako_server::text::{
    clone_opt, extension_of, is_whitespace, strip_suffix_of, text_eq, trim_end_of,
};

#[test]
fn defaults_of_a_definition() {
    assert!(default_as_true());
    assert_eq!(default_as_tcp(), "tcp");
    assert_eq!(default_interval(), 30);
    assert_eq!(default_retries(), 3);
    assert_eq!(default_timeout(), 5);
}

#[test]
fn trim_end_removes_trailing_white_space_only() {
    assert_eq!(trim_end_of("rev-1\n"), "rev-1");
    assert_eq!(trim_end_of("  rev 1 \t\r\n"), "  rev 1");
    assert_eq!(trim_end_of("rev\u{3000}\u{a0}"), "rev");
    assert_eq!(trim_end_of(" \n"), "");
    assert_eq!(trim_end_of(""), "");
    assert_eq!(trim_end_of("rev"), "rev");
}

#[test]
fn white_space_is_the_unicode_property() {
    for c in ['\t', '\n', '\u{b}', '\u{c}', '\r', ' ', '\u{85}', '\u{a0}', '\u{1680}', '\u{2000}', '\u{200a}', '\u{2028}', '\u{2029}', '\u{202f}', '\u{205f}', '\u{3000}'] {
        assert!(is_whitespace(c));
        assert_eq!(is_whitespace(c), c.is_whitespace());
    }
    for c in ['a', '0', '\u{200b}', '\u{180e}', '-', '\u{0}'] {
        assert!(!is_whitespace(c));
        assert_eq!(is_whitespace(c), c.is_whitespace());
    }
}

#[test]
fn extension_follows_path_extension() {
    for name in ["app.jsonnet", "a.b.c", "a.", ".jsonnet", "..", ".", "noext", ".hidden.txt", "x..y", "日本.jsonnet"] {
        let expected = std::path::Path::new(name).extension().map(|e| e.to_str().unwrap().to_string());
        assert_eq!(extension_of(name), expected, "{}", name);
    }
    assert_eq!(extension_of("app.jsonnet"), Some("jsonnet".to_string()));
    assert_eq!(extension_of(".jsonnet"), None);
    assert_eq!(extension_of(".."), None);
    assert_eq!(extension_of("a."), Some(String::new()));
}

#[test]
fn strip_suffix_and_equality() {
    assert_eq!(strip_suffix_of("web.jsonnet", ".jsonnet"), Some("web".to_string()));
    assert_eq!(strip_suffix_of("web.json", ".jsonnet"), None);
    assert_eq!(strip_suffix_of("net", ".jsonnet"), None);
    assert_eq!(strip_suffix_of(".jsonnet", ".jsonnet"), Some(String::new()));
    assert!(text_eq("ä-b", "ä-b"));
    assert!(!text_eq("ä-b", "a-b"));
    assert!(!text_eq("ab", "abc"));
    assert_eq!(clone_opt(&Some("x".to_string())), Some("x".to_string()));
    assert_eq!(clone_opt(&None), None);
}

#[test]
fn keyed_map_keeps_one_entry_per_key() {
    let mut m: KeyedMap<String> = KeyedMap::new();
    assert_eq!(m.len(), 0);
    assert_eq!(m.get("a"), None);
    m.insert("a".to_string(), "1".to_string());
    m.insert("b".to_string(), "2".to_string());
    assert_eq!(m.len(), 2);
    assert_eq!(m.get("a"), Some(&"1".to_string()));
    m.insert("a".to_string(), "3".to_string());
    assert_eq!(m.len(), 2);
    assert_eq!(m.get("a"), Some(&"3".to_string()));
    assert_eq!(m.get("b"), Some(&"2".to_string()));
    assert_eq!(m.key_at(0), "a");
    assert_eq!(m.value_at(0), "3");
    assert_eq!(m.key_at(1), "b");
    assert_eq!(m.get("c"), None);
}
