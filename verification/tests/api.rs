use surge::api::{
    change_user, get_node_by_nodekey, list_machines, register_node, remove_node, rename, Method,
    Node, User,
};

fn node(id: &str, node_key: &str) -> Node {
    Node {
        id: id.to_string(),
        name: "web".to_string(),
        ip_addresses: vec!["100.64.0.1".to_string()],
        node_key: node_key.to_string(),
        user: User { name: "ops".to_string() },
    }
}

#[test]
fn the_first_node_with_the_key_is_found() {
    let machines = vec![node("1", "aa"), node("2", "bb"), node("3", "bb")];
    assert_eq!(get_node_by_nodekey(machines, "bb").unwrap().id, "2");
    assert!(get_node_by_nodekey(vec![node("1", "aa")], "a").is_none());
    assert!(get_node_by_nodekey(Vec::new(), "aa").is_none());
}

#[test]
fn machines_are_listed() {
    let request = list_machines("https://hs.example.com");
    assert_eq!(request.method, Method::Get);
    assert_eq!(request.url, "https://hs.example.com/api/v1/machine");
    assert!(request.query.is_empty());
    assert_eq!(request.send_context, "Failed to list machines");
    assert_eq!(request.parse_context.as_deref(), Some("Failed to list machines"));
}

#[test]
fn a_node_is_registered_by_its_key() {
    let request = register_node("https://hs.example.com", "abc", "ops");
    assert_eq!(request.method, Method::Post);
    assert_eq!(request.url, "https://hs.example.com/api/v1/machine/register");
    assert_eq!(request.query.len(), 2);
    assert_eq!(request.query[0].name, "user");
    assert_eq!(request.query[0].value, "ops");
    assert_eq!(request.query[1].name, "key");
    assert_eq!(request.query[1].value, "nodekey:abc");
    assert_eq!(request.send_context, "Failed to register machine");
    assert_eq!(request.parse_context.as_deref(), Some("Failed to parse response"));
}

#[test]
fn a_registered_key_reads_back() {
    let request = register_node("https://hs.example.com", "a:b", "ops");
    let key = surge::text::split_after(&request.query[1].value, ':');
    assert_eq!(key, Some("a:b".to_string()));
}

#[test]
fn a_node_is_renamed() {
    let request = rename("https://hs.example.com", "7", "web");
    assert_eq!(request.method, Method::Post);
    assert_eq!(request.url, "https://hs.example.com/api/v1/machine/7/rename/web");
    assert!(request.query.is_empty());
    assert_eq!(request.send_context, "Failed to rename machine");
    assert_eq!(request.parse_context.as_deref(), Some("Failed to parse response"));
}

#[test]
fn a_node_is_given_to_a_user() {
    let request = change_user("https://hs.example.com", "7", "ops");
    assert_eq!(request.method, Method::Post);
    assert_eq!(request.url, "https://hs.example.com/api/v1/machine/7/user");
    assert_eq!(request.query.len(), 1);
    assert_eq!(request.query[0].name, "user");
    assert_eq!(request.query[0].value, "ops");
    assert_eq!(request.send_context, "Failed to change user");
    assert_eq!(request.parse_context.as_deref(), Some("Failed to parse response"));
}

#[test]
fn a_node_is_removed() {
    let request = remove_node("https://hs.example.com", "7");
    assert_eq!(request.method, Method::Delete);
    assert_eq!(request.url, "https://hs.example.com/api/v1/machine/7");
    assert!(request.query.is_empty());
    assert_eq!(request.send_context, "Failed to delete node");
    assert!(request.parse_context.is_none());
}
