//! The control plane: its machines and the requests it takes.

use crate::text::{opt_view, same, views};
use vstd::prelude::*;

verus! {

/// The user that a node belongs to.
#[derive(Debug)]
pub struct User {
    pub name: String,
}

/// The model of a [`User`].
#[verifier::ext_equal]
pub struct UserView {
    pub name: Seq<char>,
}

impl View for User {
    type V = UserView;

    open spec fn view(&self) -> UserView {
        UserView {
            name: self.name@,
        }
    }
}

/// A machine, as the control plane knows it.
#[derive(Debug)]
pub struct Node {
    pub id: String,
    /// The given name, by which the tailnet resolves the node.
    pub name: String,
    pub ip_addresses: Vec<String>,
    pub node_key: String,
    pub user: User,
}

/// The model of a [`Node`].
#[verifier::ext_equal]
pub struct NodeView {
    pub id: Seq<char>,
    pub name: Seq<char>,
    pub ip_addresses: Seq<Seq<char>>,
    pub node_key: Seq<char>,
    pub user: UserView,
}

impl View for Node {
    type V = NodeView;

    open spec fn view(&self) -> NodeView {
        NodeView {
            id: self.id@,
            name: self.name@,
            ip_addresses: views(self.ip_addresses@),
            node_key: self.node_key@,
            user: self.user@,
        }
    }
}

/// The method of an [`HttpRequest`].
#[derive(Debug, Clone, Copy, PartialEq, Eq, Structural)]
pub enum Method {
    Get,
    Post,
    Delete,
}

/// A query parameter, not yet percent-encoded.
#[derive(Debug)]
pub struct Parameter {
    pub name: String,
    pub value: String,
}

/// The model of a [`Parameter`].
#[verifier::ext_equal]
pub struct ParameterView {
    pub name: Seq<char>,
    pub value: Seq<char>,
}

impl View for Parameter {
    type V = ParameterView;

    open spec fn view(&self) -> ParameterView {
        ParameterView {
            name: self.name@,
            value: self.value@,
        }
    }
}

/// A request to the control plane.
#[derive(Debug)]
pub struct HttpRequest {
    pub method: Method,
    pub url: String,
    pub query: Vec<Parameter>,
    /// What has failed where the request cannot be sent.
    pub send_context: String,
    /// What has failed where the body of the reply cannot be read. `None` where the body is not
    /// read.
    pub parse_context: Option<String>,
}

/// The model of a [`HttpRequest`].
#[verifier::ext_equal]
pub struct HttpRequestView {
    pub method: Method,
    pub url: Seq<char>,
    pub query: Seq<ParameterView>,
    pub send_context: Seq<char>,
    pub parse_context: Option<Seq<char>>,
}

impl View for HttpRequest {
    type V = HttpRequestView;

    open spec fn view(&self) -> HttpRequestView {
        HttpRequestView {
            method: self.method,
            url: self.url@,
            query: views(self.query@),
            send_context: self.send_context@,
            parse_context: opt_view(self.parse_context),
        }
    }
}

/// The node with the node key, the first of them where there are several.
pub open spec fn find_node(machines: Seq<NodeView>, nodekey: Seq<char>) -> Option<NodeView>
    decreases machines.len(),
{
    if machines.len() == 0 {
        None
    } else if machines[0].node_key == nodekey {
        Some(machines[0])
    } else {
        find_node(machines.skip(1), nodekey)
    }
}

/// A lookup finds nothing exactly where no machine has the node key, and else the first that has
/// it.
pub proof fn lemma_find_node(machines: Seq<NodeView>, nodekey: Seq<char>)
    ensures
        find_node(machines, nodekey) is None <==> forall|i: int|
            0 <= i < machines.len() ==> (#[trigger] machines[i]).node_key != nodekey,
        find_node(machines, nodekey) matches Some(node) ==> {
            &&& node.node_key == nodekey
            &&& exists|i: int|
                {
                    &&& 0 <= i < machines.len()
                    &&& #[trigger] machines[i] == node
                    &&& forall|j: int| 0 <= j < i ==> (#[trigger] machines[j]).node_key != nodekey
                }
        },
    decreases machines.len(),
{
    if machines.len() > 0 {
        let rest = machines.skip(1);
        lemma_find_node(rest, nodekey);
        assert forall|i: int| 1 <= i < machines.len() implies #[trigger] machines[i] == rest[i
            - 1] by {}
        if machines[0].node_key != nodekey {
            match find_node(rest, nodekey) {
                Some(node) => {
                    let i = choose|i: int|
                        {
                            &&& 0 <= i < rest.len()
                            &&& #[trigger] rest[i] == node
                            &&& forall|j: int|
                                0 <= j < i ==> (#[trigger] rest[j]).node_key != nodekey
                        };
                    assert(machines[i + 1] == node);
                },
                None => {},
            }
        }
    }
}

/// The node with the node key among the machines that the control plane lists, the first of them
/// where there are several.
pub fn get_node_by_nodekey(machines: Vec<Node>, nodekey: &str) -> (r: Option<Node>)
    ensures
        opt_view(r) == find_node(views(machines@), nodekey@),
{
    let ghost all = views(machines@);
    let mut machines = machines;
    let mut i: usize = 0;
    assert(all.skip(0) == all);
    #[verifier::loop_isolation(false)]
    while i < machines.len()
        invariant
            i <= machines@.len(),
            all == views(machines@),
            find_node(all, nodekey@) == find_node(all.skip(i as int), nodekey@),
        decreases machines@.len() - i,
    {
        assert(all.skip(i as int).skip(1) == all.skip(i + 1));
        if same(&machines[i].node_key, nodekey) {
            assert(all.skip(i as int)[0] == machines@[i as int]@);
            return Some(machines.swap_remove(i));
        }
        i = i + 1;
    }
    None
}

/// A request for the list of machines.
pub open spec fn list_request(base_url: Seq<char>) -> HttpRequestView {
    HttpRequestView {
        method: Method::Get,
        url: base_url + "/api/v1/machine"@,
        query: seq![],
        send_context: "Failed to list machines"@,
        parse_context: Some("Failed to list machines"@),
    }
}

/// A request that registers the node with the node key for the user.
pub open spec fn register_request(
    base_url: Seq<char>,
    nodekey: Seq<char>,
    user: Seq<char>,
) -> HttpRequestView {
    HttpRequestView {
        method: Method::Post,
        url: base_url + "/api/v1/machine/register"@,
        query: seq![
            ParameterView { name: "user"@, value: user },
            ParameterView { name: "key"@, value: "nodekey:"@ + nodekey },
        ],
        send_context: "Failed to register machine"@,
        parse_context: Some("Failed to parse response"@),
    }
}

/// A request that gives the machine the name.
pub open spec fn rename_request(
    base_url: Seq<char>,
    id: Seq<char>,
    name: Seq<char>,
) -> HttpRequestView {
    HttpRequestView {
        method: Method::Post,
        url: base_url + "/api/v1/machine/"@ + id + "/rename/"@ + name,
        query: seq![],
        send_context: "Failed to rename machine"@,
        parse_context: Some("Failed to parse response"@),
    }
}

/// A request that gives the machine to the user.
pub open spec fn change_user_request(
    base_url: Seq<char>,
    id: Seq<char>,
    user: Seq<char>,
) -> HttpRequestView {
    HttpRequestView {
        method: Method::Post,
        url: base_url + "/api/v1/machine/"@ + id + "/user"@,
        query: seq![ParameterView { name: "user"@, value: user }],
        send_context: "Failed to change user"@,
        parse_context: Some("Failed to parse response"@),
    }
}

/// A request that deletes the machine.
pub open spec fn remove_request(base_url: Seq<char>, id: Seq<char>) -> HttpRequestView {
    HttpRequestView {
        method: Method::Delete,
        url: base_url + "/api/v1/machine/"@ + id,
        query: seq![],
        send_context: "Failed to delete node"@,
        parse_context: None,
    }
}

/// The request for the list of machines, which [`get_node_by_nodekey`] searches.
pub fn list_machines(base_url: &str) -> (r: HttpRequest)
    ensures
        r@ == list_request(base_url@),
{
    let r = HttpRequest {
        method: Method::Get,
        url: base_url.to_owned().concat("/api/v1/machine"),
        query: Vec::new(),
        send_context: "Failed to list machines".to_owned(),
        parse_context: Some("Failed to list machines".to_owned()),
    };
    assert(r@.query == list_request(base_url@).query);
    r
}

/// The request that registers the node with the node key for the user.
pub fn register_node(base_url: &str, nodekey: &str, user: &str) -> (r: HttpRequest)
    ensures
        r@ == register_request(base_url@, nodekey@, user@),
{
    let r = HttpRequest {
        method: Method::Post,
        url: base_url.to_owned().concat("/api/v1/machine/register"),
        query: vec![
            Parameter { name: "user".to_owned(), value: user.to_owned() },
            Parameter { name: "key".to_owned(), value: "nodekey:".to_owned().concat(nodekey) },
        ],
        send_context: "Failed to register machine".to_owned(),
        parse_context: Some("Failed to parse response".to_owned()),
    };
    assert(r@.query == register_request(base_url@, nodekey@, user@).query);
    r
}

/// The request that gives the machine the name.
pub fn rename(base_url: &str, id: &str, name: &str) -> (r: HttpRequest)
    ensures
        r@ == rename_request(base_url@, id@, name@),
{
    let r = HttpRequest {
        method: Method::Post,
        url: base_url.to_owned().concat("/api/v1/machine/").concat(id).concat("/rename/").concat(
            name,
        ),
        query: Vec::new(),
        send_context: "Failed to rename machine".to_owned(),
        parse_context: Some("Failed to parse response".to_owned()),
    };
    assert(r@.query == rename_request(base_url@, id@, name@).query);
    r
}

/// The request that gives the machine to the user.
pub fn change_user(base_url: &str, id: &str, user: &str) -> (r: HttpRequest)
    ensures
        r@ == change_user_request(base_url@, id@, user@),
{
    let r = HttpRequest {
        method: Method::Post,
        url: base_url.to_owned().concat("/api/v1/machine/").concat(id).concat("/user"),
        query: vec![Parameter { name: "user".to_owned(), value: user.to_owned() }],
        send_context: "Failed to change user".to_owned(),
        parse_context: Some("Failed to parse response".to_owned()),
    };
    assert(r@.query == change_user_request(base_url@, id@, user@).query);
    r
}

/// The request that deletes the machine.
pub fn remove_node(base_url: &str, id: &str) -> (r: HttpRequest)
    ensures
        r@ == remove_request(base_url@, id@),
{
    let r = HttpRequest {
        method: Method::Delete,
        url: base_url.to_owned().concat("/api/v1/machine/").concat(id),
        query: Vec::new(),
        send_context: "Failed to delete node".to_owned(),
        parse_context: None,
    };
    assert(r@.query == remove_request(base_url@, id@).query);
    r
}

} // verus!
