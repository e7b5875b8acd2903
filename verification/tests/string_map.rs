use surge::string_map::{get_in, StringMap};

#[test]
fn a_later_value_takes_the_place_of_an_earlier_one() {
    let map = StringMap::new()
        .with("a".to_string(), "1".to_string())
        .with("b".to_string(), "2".to_string())
        .with("a".to_string(), "3".to_string());
    assert_eq!(map.get("a"), Some(&"3".to_string()));
    assert_eq!(map.get("b"), Some(&"2".to_string()));
    assert_eq!(map.get("c"), None);
    assert_eq!(map.entries().len(), 2);
}

#[test]
fn a_map_that_is_not_there_holds_nothing() {
    assert_eq!(get_in(&None, "a"), None);
    let map = Some(StringMap::new().with("a".to_string(), "1".to_string()));
    assert_eq!(get_in(&map, "a"), Some("1".to_string()));
    assert_eq!(get_in(&map, "b"), None);
}
