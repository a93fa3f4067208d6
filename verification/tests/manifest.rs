use kinoko::data_structs::{Mushroom, ParseError};

#[test]
fn serialize_two_lines() {
    let m = Mushroom {
        root: String::from("src/main.rs"),
        head: String::from("build/app"),
    };
    assert_eq!(m.serialize().as_str(), "root: src/main.rs\nhead: build/app");
}

#[test]
fn round_trip_keeps_fields() {
    let m = Mushroom {
        root: String::from("src/main.rs"),
        head: String::from("build/demo"),
    };
    let text = m.serialize();
    let back = Mushroom::deserialize(text.as_str()).unwrap();
    assert_eq!(back.root.as_str(), "src/main.rs");
    assert_eq!(back.head.as_str(), "build/demo");
}

#[test]
fn round_trip_with_spaces_inside_values() {
    let m = Mushroom {
        root: String::from("src dir/main file.rs"),
        head: String::from("build out/the app"),
    };
    let back = Mushroom::deserialize(m.serialize().as_str()).unwrap();
    assert_eq!(back.root.as_str(), "src dir/main file.rs");
    assert_eq!(back.head.as_str(), "build out/the app");
}

#[test]
fn missing_head_defaults() {
    let m = Mushroom::deserialize("root: src/main.rs").unwrap();
    assert_eq!(m.root.as_str(), "src/main.rs");
    assert_eq!(m.head.as_str(), "build/app");
}

#[test]
fn missing_root_fails() {
    let r = Mushroom::deserialize("head: build/app");
    assert!(matches!(r, Err(ParseError::MissingEntryPoint)));
}

#[test]
fn empty_text_fails() {
    assert!(matches!(
        Mushroom::deserialize(""),
        Err(ParseError::MissingEntryPoint)
    ));
}

#[test]
fn keys_and_values_are_trimmed() {
    let m = Mushroom::deserialize("  root :   src/main.rs  \n\thead\t:  build/app\t").unwrap();
    assert_eq!(m.root.as_str(), "src/main.rs");
    assert_eq!(m.head.as_str(), "build/app");
}

#[test]
fn unknown_keys_and_plain_lines_are_skipped() {
    let text = "color: brown\njust a note without meaning\nroot: a.rs\nhead: b";
    let m = Mushroom::deserialize(text).unwrap();
    assert_eq!(m.root.as_str(), "a.rs");
    assert_eq!(m.head.as_str(), "b");
}

#[test]
fn last_occurrence_of_a_key_wins() {
    let text = "root: one.rs\nhead: h1\nroot: two.rs\nhead: h2";
    let m = Mushroom::deserialize(text).unwrap();
    assert_eq!(m.root.as_str(), "two.rs");
    assert_eq!(m.head.as_str(), "h2");
}

#[test]
fn order_of_keys_is_irrelevant() {
    let m = Mushroom::deserialize("head: out\nroot: in.rs").unwrap();
    assert_eq!(m.root.as_str(), "in.rs");
    assert_eq!(m.head.as_str(), "out");
}

#[test]
fn value_may_contain_a_colon() {
    let m = Mushroom::deserialize("root: a:b.rs\nhead: c").unwrap();
    assert_eq!(m.root.as_str(), "a:b.rs");
}

#[test]
fn carriage_returns_are_stripped() {
    let m = Mushroom::deserialize("root: a.rs\r\nhead: b\r\n").unwrap();
    assert_eq!(m.root.as_str(), "a.rs");
    assert_eq!(m.head.as_str(), "b");
}

#[test]
fn new_record_is_blank() {
    let m = Mushroom::new();
    assert_eq!(m.root.as_str(), "");
    assert_eq!(m.head.as_str(), "");
}
