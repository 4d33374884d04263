use shortlink::entries::json::{entry_exist, find_entry, serialize_entry, Entry};
use shortlink::routes::save_entry;

const TWO_ENTRIES: &str = "[\n  {\n    \"shortcut_url\": \"nothing\",\n    \"original_url\": \"not.thing.com\"\n  },\n  {\n    \"shortcut_url\": \"abc\",\n    \"original_url\": \"a.b.c\"\n  }\n]";

/// Reads a collection as the service does, with serde_json.
fn parse(text: &str) -> Vec<Entry> {
    let value: serde_json::Value = serde_json::from_str(text).unwrap();
    value
        .as_array()
        .unwrap()
        .iter()
        .map(|o| {
            Entry::new(
                o["shortcut_url"].as_str().unwrap().to_string(),
                o["original_url"].as_str().unwrap().to_string(),
            )
        })
        .collect()
}

fn two_entries() -> Vec<Entry> {
    vec![
        Entry::new(String::from("nothing"), String::from("not.thing.com")),
        Entry::new(String::from("abc"), String::from("a.b.c")),
    ]
}

#[test]
fn test_file_not_exist_save_entry() {
    let filename = "Car1go.toml";
    let entry = Entry::new(String::new(), String::new());
    let res = save_entry(filename, None, entry);

    assert_eq!(res, Err(format!("File '{filename}' does not exist.")));
}

#[test]
fn test_serialize() {
    let got = serialize_entry(&two_entries());
    assert_eq!(got, TWO_ENTRIES);
}

#[test]
fn test_serialize_save() {
    let expected = "[\n  {\n    \"shortcut_url\": \"nothing\",\n    \"original_url\": \"not.thing.com\"\n  },\n  {\n    \"shortcut_url\": \"abc\",\n    \"original_url\": \"a.b.c\"\n  },\n  {\n    \"shortcut_url\": \"ggl\",\n    \"original_url\": \"google.com\"\n  }\n]";
    let data = vec![
        Entry::new(String::from("nothing"), String::from("not.thing.com")),
        Entry::new(String::from("abc"), String::from("a.b.c")),
        Entry::new(String::from("ggl"), String::from("google.com")),
    ];

    let ser = serialize_entry(&data);
    assert_eq!(expected.to_string(), ser);
}

#[test]
fn test_entry_exist() {
    let entries = vec![
        Entry::new("g".to_string(), "google.com".to_string()),
        Entry::new("g1".to_string(), "google.com".to_string()),
    ];
    let short = String::from("g");
    assert_eq!(entry_exist(&short, &entries), true);
}

#[test]
fn test_entry_not_exist() {
    let entries = vec![
        Entry::new("g".to_string(), "google.com".to_string()),
        Entry::new("g1".to_string(), "google.com".to_string()),
    ];
    let short = String::from("g3");
    assert_eq!(entry_exist(&short, &entries), false);
}

#[test]
fn test_entry_exist_file() {
    assert_eq!(entry_exist(&"abc".to_string(), &parse(TWO_ENTRIES)), true);
}

#[test]
fn test_find_entry() {
    let entries = parse(TWO_ENTRIES);

    let e = find_entry(&"nothing".to_string(), &entries);

    match e {
        Some(x) => {
            assert_eq!(x.get_shortcut(), "nothing")
        }
        None => assert!(false),
    };
}

#[test]
fn test_create_empty_json() {
    let data = serialize_entry(&Vec::new());

    assert_eq!(data, "[]");
}

#[test]
fn empty_collection_round_trips() {
    let text = serialize_entry(&Vec::new());
    assert_eq!(parse(&text), Vec::new());
}

#[test]
fn escaped_strings_round_trip() {
    let entries = vec![
        Entry::new("q\"b\\s".to_string(), "a\nb\tc\u{1}d\u{8}\u{c}\r/é".to_string()),
        Entry::new("x".to_string(), String::new()),
    ];
    let text = serialize_entry(&entries);
    assert!(text.contains("\"shortcut_url\": \"q\\\"b\\\\s\""));
    assert!(text.contains("\"original_url\": \"a\\nb\\tc\\u0001d\\b\\f\\r/é\""));
    assert_eq!(parse(&text), entries);
}

#[test]
fn text_survives_load_then_save() {
    assert_eq!(serialize_entry(&parse(TWO_ENTRIES)), TWO_ENTRIES);
}

#[test]
fn other_json_layouts_load() {
    let compact = "[{\"original_url\":\"a.b.c\",\"shortcut_url\":\"abc\"}, {\"shortcut_url\":\"x\",\"original_url\":\"\\u00e9\\/\"}]";
    let entries = parse(compact);
    assert_eq!(entries[0], Entry::new("abc".to_string(), "a.b.c".to_string()));
    assert_eq!(entries[1], Entry::new("x".to_string(), "é/".to_string()));
    assert_eq!(parse("[ ]"), Vec::new());
}

#[test]
fn find_entry_missing_is_none() {
    let entries = two_entries();
    assert!(find_entry(&"zzz".to_string(), &entries).is_none());
    assert_eq!(find_entry(&"abc".to_string(), &entries).unwrap().get_original(), "a.b.c");
}
