use surge::text::{join_output, same, split_after};

#[test]
fn split_takes_what_follows_the_first_separator() {
    assert_eq!(split_after("nodekey:ab:c", ':'), Some("ab:c".to_string()));
    assert_eq!(split_after("nodekey:", ':'), Some(String::new()));
    assert_eq!(split_after(":x", ':'), Some("x".to_string()));
    assert_eq!(split_after("schlüssel:ß€", ':'), Some("ß€".to_string()));
}

#[test]
fn split_finds_nothing_without_a_separator() {
    assert_eq!(split_after("nodekey", ':'), None);
    assert_eq!(split_after("", ':'), None);
}

#[test]
fn same_compares_texts() {
    assert!(same(&"Running".to_string(), "Running"));
    assert!(!same(&"Running".to_string(), "running"));
}

#[test]
fn output_is_joined_from_the_readable_chunks() {
    let chunks = vec![
        Some(b"{\"a\":".to_vec()),
        None,
        Some(vec![0xff, 0xfe]),
        Some("\"é\"".as_bytes().to_vec()),
        Some(Vec::new()),
        Some(b"}".to_vec()),
    ];
    assert_eq!(join_output(&chunks), "{\"a\":\"é\"}");
    assert_eq!(join_output(&Vec::new()), "");
}

#[test]
fn how_valid_output_is_cut_does_not_matter() {
    let bytes = "{\"aé\":\"€\"}".as_bytes();
    let whole = vec![Some(bytes.to_vec())];
    assert_eq!(join_output(&whole), "{\"aé\":\"€\"}");
    let cut = vec![
        Some(bytes[..3].to_vec()),
        Some(Vec::new()),
        Some(bytes[3..8].to_vec()),
        Some(bytes[8..].to_vec()),
    ];
    assert_eq!(join_output(&cut), join_output(&whole));
}

#[test]
fn a_character_that_is_split_between_chunks_is_lost() {
    let chunks = vec![Some(vec![b'a', 0xc3]), Some(vec![0xa9, b'b']), Some(b"c".to_vec())];
    assert_eq!(join_output(&chunks), "c");
}
