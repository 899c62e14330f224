use options_patch::accessor::{find_record, get_max_fps_option, get_max_fps_value, str_eq};
use options_patch::error::Error;
use options_patch::parser::{find_separator, parse, parse_line};
use options_patch::policy::{apply, needs_patch};
use options_patch::record::Record;
use options_patch::serializer::{serialize, serialize_record};

fn lines(raw: &[&str]) -> Vec<String> {
    raw.iter().map(|s| s.to_string()).collect()
}

#[test]
fn separator_search_finds_first_occurrence() {
    assert_eq!(find_separator("ab:c:d"), Some(2));
    assert_eq!(find_separator(":x"), Some(0));
    assert_eq!(find_separator("abc"), None);
    assert_eq!(find_separator(""), None);
}

#[test]
fn line_splits_at_first_separator_only() {
    let rec = parse_line("key:a:b").expect("line has a separator");
    assert_eq!(rec.key, "key");
    assert_eq!(rec.value, "a:b");
}

#[test]
fn line_without_separator_is_rejected() {
    assert_eq!(parse_line("justtext"), None);
}

#[test]
fn empty_value_is_kept() {
    let rec = parse_line("k:").expect("line has a separator");
    assert_eq!(rec.key, "k");
    assert_eq!(rec.value, "");
}

#[test]
fn empty_key_is_kept() {
    let rec = parse_line(":v").expect("line has a separator");
    assert_eq!(rec.key, "");
    assert_eq!(rec.value, "v");
}

#[test]
fn parse_preserves_order_and_count() {
    let input = lines(&["a:1", "b:2", "c:3"]);
    let doc = parse(&input).expect("well-formed file");
    assert_eq!(doc.len(), 3);
    assert_eq!(doc.records[0], Record { key: "a".to_string(), value: "1".to_string() });
    assert_eq!(doc.records[1], Record { key: "b".to_string(), value: "2".to_string() });
    assert_eq!(doc.records[2], Record { key: "c".to_string(), value: "3".to_string() });
}

#[test]
fn parse_reports_first_bad_line_number() {
    let input = lines(&["a:1", "bad", "alsobad"]);
    match parse(&input) {
        Err(Error::MalformedLine(n)) => assert_eq!(n, 2),
        other => panic!("expected MalformedLine, got {:?}", other),
    }
}

#[test]
fn record_serializes_to_key_separator_value() {
    let rec = Record { key: "a".to_string(), value: "b".to_string() };
    assert_eq!(serialize_record(&rec), "a:b");
    let rec = Record { key: "k".to_string(), value: "".to_string() };
    assert_eq!(serialize_record(&rec), "k:");
}

#[test]
fn round_trip_reproduces_lines() {
    let input = lines(&["resourcePacks:[\"x:y\"]", "maxFps:0", "fov:70", "empty:"]);
    let doc = parse(&input).expect("well-formed file");
    let out = serialize(&doc);
    assert_eq!(out, input);
}

#[test]
fn round_trip_reproduces_document() {
    let input = lines(&["a:1", "b:2:3", "c:"]);
    let doc = parse(&input).expect("well-formed file");
    let reparsed = parse(&serialize(&doc)).expect("serialized file is well formed");
    assert_eq!(reparsed, doc);
}

#[test]
fn string_comparison_is_character_exact() {
    assert!(str_eq("maxFps", "maxFps"));
    assert!(!str_eq("maxFps", "maxFpsX"));
    assert!(!str_eq("maxFps", "maxfps"));
    assert!(str_eq("", ""));
    assert!(!str_eq("", "a"));
}

#[test]
fn find_record_takes_first_exact_match() {
    let input = lines(&["maxFpsMenu:1", "maxFps:60", "maxFps:0"]);
    let doc = parse(&input).expect("well-formed file");
    assert_eq!(find_record(&doc, "maxFps"), Some(1));
    assert_eq!(find_record(&doc, "maxFpsMenu"), Some(0));
    assert_eq!(find_record(&doc, "fov"), None);
}

#[test]
fn max_fps_accessors_locate_the_field() {
    let input = lines(&["fov:70", "maxFps:60"]);
    let doc = parse(&input).expect("well-formed file");
    assert_eq!(get_max_fps_option(&doc), Ok(1));
    assert_eq!(get_max_fps_value(&doc), Ok("60".to_string()));
}

#[test]
fn max_fps_accessors_fail_when_absent() {
    let input = lines(&["fov:70"]);
    let doc = parse(&input).expect("well-formed file");
    assert_eq!(get_max_fps_option(&doc), Err(Error::MaxFpsOptionMissing));
    assert_eq!(get_max_fps_value(&doc), Err(Error::MaxFpsOptionMissing));
}

#[test]
fn only_the_sentinel_needs_patching() {
    assert!(needs_patch("0"));
    assert!(!needs_patch("120"));
    assert!(!needs_patch("00"));
    assert!(!needs_patch(""));
    assert!(!needs_patch("0 "));
}

#[test]
fn apply_sets_the_good_value_and_keeps_the_key() {
    let mut rec = Record { key: "maxFps".to_string(), value: "0".to_string() };
    apply(&mut rec);
    assert_eq!(rec, Record { key: "maxFps".to_string(), value: "120".to_string() });
}
