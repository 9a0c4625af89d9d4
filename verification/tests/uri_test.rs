use cortex::context::{aux_decorate_uri_encodings, decorate_map, TemplateContext};
use cortex::strmap::StrMap;
use cortex::uri::{aux_uri_escape, aux_uri_unescape};

fn esc(s: &str) -> String {
    aux_uri_escape(Some(s.to_string())).unwrap()
}

fn unesc(s: &str) -> String {
    aux_uri_unescape(Some(s)).unwrap()
}

#[test]
fn escape_percent_encodes_default_set() {
    assert_eq!(esc("foo bar?"), "foo%20bar%3F");
    assert_eq!(esc("a{b}`c#d<e>\"f"), "a%7Bb%7D%60c%23d%3Ce%3E%22f");
}

#[test]
fn escape_extra_characters() {
    assert_eq!(esc("arXMLiv/2020.zip"), "arXMLiv%2F2020%2Ezip");
    assert_eq!(esc("a:b\\c$d!e@f"), "a%3Ab%5Cc%24d%21e%40f");
    assert_eq!(esc("tex_to_html"), "tex_to_html");
}

#[test]
fn escape_non_ascii_bytes() {
    assert_eq!(esc("é"), "%C3%A9");
    assert_eq!(esc("\n"), "%0A");
}

#[test]
fn escape_and_unescape_of_none() {
    assert_eq!(aux_uri_escape(None), None);
    assert_eq!(aux_uri_unescape(None), None);
}

#[test]
fn unescape_decodes() {
    assert_eq!(unesc("arXMLiv%2F2020%2Ezip"), "arXMLiv/2020.zip");
    assert_eq!(unesc("a%3Ab%5Cc%24d%21e%40f"), "a:b\\c$d!e@f");
    assert_eq!(unesc("foo%20bar"), "foo bar");
    assert_eq!(unesc("%c3%a9"), "é");
}

#[test]
fn unescape_keeps_incomplete_escapes() {
    assert_eq!(unesc("100%"), "100%");
    assert_eq!(unesc("%zz"), "%zz");
    assert_eq!(unesc("%4"), "%4");
}

#[test]
fn unescape_replaces_invalid_utf8() {
    assert_eq!(unesc("%FF"), "\u{FFFD}");
}

#[test]
fn escape_then_unescape_round_trips() {
    for s in ["arXMLiv", "corpus/ü.tex", "a b?c:d/e\\f$g.h!i@j", "日本語 text", ""] {
        assert_eq!(unesc(&esc(s)), s);
    }
}

#[test]
fn round_trip_fails_for_percent() {
    assert_eq!(esc("%41"), "%41");
    assert_eq!(unesc(&esc("%41")), "A");
}

fn map_of(pairs: &[(&str, &str)]) -> StrMap<String> {
    let mut m = StrMap::new();
    for (k, v) in pairs {
        m.insert(k.to_string(), v.to_string());
    }
    m
}

#[test]
fn decorate_map_adds_uri_keys() {
    let mut m = map_of(&[("name", "a/b"), ("id", "7")]);
    decorate_map(&mut m);
    assert_eq!(m.len(), 4);
    assert_eq!(m.get("name").unwrap(), "a/b");
    assert_eq!(m.get("name_uri").unwrap(), "a%2Fb");
    assert_eq!(m.get("id_uri").unwrap(), "7");
    assert_eq!(m.key_at(2), "name_uri");
    assert_eq!(m.key_at(3), "id_uri");
}

#[test]
fn decoration_overrides_existing_uri_key() {
    let mut m = map_of(&[("a_uri", "old"), ("a", "x.y")]);
    decorate_map(&mut m);
    assert_eq!(m.get("a_uri").unwrap(), "x%2Ey");
    assert_eq!(m.get("a_uri_uri").unwrap(), "old");
}

#[test]
fn decorate_context_builds_current_link() {
    let mut context = TemplateContext::default();
    context.global = map_of(&[
        ("corpus_name", "arXMLiv"),
        ("service_name", "tex_to_html"),
        ("severity", "warning"),
        ("category", "missing_file"),
    ]);
    context.entries = Some(vec![map_of(&[("entry", "/x/y.zip")])]);
    context.workers = Some(vec![map_of(&[("name", "w 1")])]);
    aux_decorate_uri_encodings(&mut context);
    assert_eq!(
        context.global.get("current_link_uri").unwrap(),
        "/corpus/arXMLiv/tex_to_html/warning/missing_file/"
    );
    assert_eq!(context.global.get("severity_uri").unwrap(), "warning");
    let entries = context.entries.unwrap();
    assert_eq!(entries[0].get("entry_uri").unwrap(), "%2Fx%2Fy%2Ezip");
    let workers = context.workers.unwrap();
    assert!(workers[0].get("name_uri").is_none());
}

#[test]
fn decorate_context_without_names_has_no_link() {
    let mut context = TemplateContext::default();
    context.global = map_of(&[("corpus_name", "arXMLiv")]);
    aux_decorate_uri_encodings(&mut context);
    assert!(context.global.get("current_link_uri").is_none());
    assert_eq!(context.global.get("corpus_name_uri").unwrap(), "arXMLiv");
}

#[test]
fn decorate_context_link_with_service_only() {
    let mut context = TemplateContext::default();
    context.global = map_of(&[("corpus_name", "c"), ("service_name", "s")]);
    aux_decorate_uri_encodings(&mut context);
    assert_eq!(context.global.get("current_link_uri").unwrap(), "/corpus/c/s/");
}

#[test]
fn decoration_links_decode_to_values() {
    let mut m = map_of(&[("corpus_name", "arXMLiv/2020"), ("what", "a:b c")]);
    decorate_map(&mut m);
    assert_eq!(unesc(m.get("corpus_name_uri").unwrap()), "arXMLiv/2020");
    assert_eq!(unesc(m.get("what_uri").unwrap()), "a:b c");
}
