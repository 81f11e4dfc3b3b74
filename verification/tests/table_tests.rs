use add_channel::merge::merge_table;
use add_channel::num::Decimal;
use add_channel::table::{KeyValue, RatioTable, parse_ratio_table, push_json_object};

fn serialize(t: &RatioTable) -> String {
    let mut v: Vec<char> = Vec::new();
    push_json_object(&mut v, t);
    v.iter().collect()
}

fn entry_pairs(t: &RatioTable) -> Vec<(String, String)> {
    t.entries.iter().map(|e| (e.key.clone(), e.value.clone())).collect()
}

#[test]
fn parse_keeps_raw_value_text() {
    let t = parse_ratio_table("{\"a\":1.5,\"b\":2}").unwrap();
    assert_eq!(
        entry_pairs(&t),
        vec![("a".to_string(), "1.5".to_string()), ("b".to_string(), "2".to_string())]
    );
}

#[test]
fn parse_rejects_non_objects() {
    assert!(parse_ratio_table("not json").is_none());
    assert!(parse_ratio_table("[1,2]").is_none());
    assert!(parse_ratio_table("5").is_none());
    assert!(parse_ratio_table("\"text\"").is_none());
}

#[test]
fn parse_accepts_empty_object() {
    let t = parse_ratio_table("{}").unwrap();
    assert!(t.entries.is_empty());
    assert_eq!(serialize(&t), "{}");
}

#[test]
fn serialize_round_trips() {
    let t = parse_ratio_table("{\"m\":0.25,\"n\":3.0}").unwrap();
    assert_eq!(serialize(&t), "{\"m\":0.25,\"n\":3.0}");
}

#[test]
fn serialize_escapes_keys() {
    let t = RatioTable {
        entries: vec![KeyValue { key: "a\"b\\c".to_string(), value: "1".to_string() }],
    };
    let s = serialize(&t);
    assert_eq!(s, "{\"a\\\"b\\\\c\":1}");
    // the escaped text parses back to the same key
    let back = parse_ratio_table(&s).unwrap();
    assert_eq!(back.entries[0].key, "a\"b\\c");
}

#[test]
fn serialize_escapes_control_characters() {
    let t = RatioTable {
        entries: vec![KeyValue { key: "a\nb\u{1}".to_string(), value: "1".to_string() }],
    };
    let s = serialize(&t);
    assert_eq!(s, "{\"a\\nb\\u0001\":1}");
    let back = parse_ratio_table(&s).unwrap();
    assert_eq!(back.entries[0].key, "a\nb\u{1}");
}

#[test]
fn set_value_replaces_in_place() {
    let mut t = parse_ratio_table("{\"a\":1,\"b\":2}").unwrap();
    t.set_value(&"a".to_string(), &"9".to_string());
    assert_eq!(serialize(&t), "{\"a\":9,\"b\":2}");
}

#[test]
fn set_value_appends_new_key() {
    let mut t = parse_ratio_table("{\"a\":1}").unwrap();
    t.set_value(&"c".to_string(), &"7".to_string());
    assert_eq!(serialize(&t), "{\"a\":1,\"c\":7}");
}

#[test]
fn merge_leaves_other_keys_untouched() {
    let mut t = parse_ratio_table("{\"other-model\":1.2,\"z\":0.004}").unwrap();
    merge_table(
        &mut t,
        &"gpt-x".to_string(),
        &"gw-gpt-x".to_string(),
        Decimal { mantissa: 3, exp: 0 },
    );
    assert_eq!(
        entry_pairs(&t),
        vec![
            ("other-model".to_string(), "1.2".to_string()),
            ("z".to_string(), "0.004".to_string()),
            ("gpt-x".to_string(), "3.0".to_string()),
            ("gw-gpt-x".to_string(), "3.0".to_string()),
        ]
    );
}

#[test]
fn merge_overwrites_both_alias_entries() {
    let mut t = parse_ratio_table("{\"gpt-x\":9.9,\"mid\":1,\"gw-gpt-x\":8.8}").unwrap();
    merge_table(
        &mut t,
        &"gpt-x".to_string(),
        &"gw-gpt-x".to_string(),
        Decimal { mantissa: 8, exp: 1 },
    );
    // parsing orders keys; both pre-existing alias entries are overwritten
    // in place and `mid` keeps its position and value
    assert_eq!(serialize(&t), "{\"gpt-x\":0.8,\"gw-gpt-x\":0.8,\"mid\":1}");
}
