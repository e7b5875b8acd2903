use surge::api::{Method, Node, User};
use surge::context::Data;
use surge::error::{error_report, ReconcileError};
use surge::local_status::{LocalStatus, LocalStatusSelf};
use surge::objects::{ObjectMeta, Service, ServiceSpec};
use surge::plan::plan;
use surge::reconcile::{
    advance, apply, cleanup, conclude_cleanup, error_policy, try_advance, Action, Cleanup,
    Progress, Reconciliation, Refusal, Step,
};
use surge::registration::Registration;
use surge::request::{Reply, Request};
use surge::string_map::StringMap;

fn data() -> Data {
    Data {
        base_url: "https://hs.example.com".to_string(),
        default_user: Some("ops".to_string()),
        load_balancer_class: "headscale".to_string(),
        storage_class: "fast".to_string(),
        tailscale_image: "tailscale/tailscale:stable".to_string(),
    }
}

fn map(entries: &[(&str, &str)]) -> StringMap {
    let mut map = StringMap::new();
    for (key, value) in entries {
        map = map.with(key.to_string(), value.to_string());
    }
    map
}

fn service() -> Service {
    Service {
        metadata: ObjectMeta {
            name: Some("web".to_string()),
            namespace: Some("prod".to_string()),
            uid: Some("u-1".to_string()),
            labels: None,
            annotations: None,
            owner_references: None,
        },
        spec: Some(ServiceSpec {
            load_balancer_class: Some("headscale".to_string()),
            cluster_ip: Some("10.0.0.7".to_string()),
            load_balancer_ip: None,
        }),
        ingress: None,
    }
}

fn annotated(nodekey: &str) -> Service {
    let mut service = service();
    service.metadata.annotations = Some(map(&[
        ("surge.unrouted.uk/nodekey", nodekey),
        ("surge.unrouted.uk/machine-id", "7"),
    ]));
    service
}

fn node(name: &str, user: &str) -> Node {
    Node {
        id: "7".to_string(),
        name: name.to_string(),
        ip_addresses: vec!["100.64.0.1".to_string(), "fd7a::1".to_string()],
        node_key: "abc".to_string(),
        user: User { name: user.to_string() },
    }
}

fn login_status() -> LocalStatus {
    LocalStatus {
        backend_state: "NeedsLogin".to_string(),
        auth_url: "https://hs.example.com/register/nodekey:abc".to_string(),
        this_node: LocalStatusSelf { node_key: "nodekey:zzz".to_string() },
    }
}

fn running_status() -> LocalStatus {
    LocalStatus {
        backend_state: "Running".to_string(),
        auth_url: String::new(),
        this_node: LocalStatusSelf { node_key: "nodekey:abc".to_string() },
    }
}

fn ask(step: Step) -> (Reconciliation, Request) {
    match step {
        Step::Ask(current, request) => (current, request),
        step => panic!("{:?}", step),
    }
}

fn next(current: Reconciliation, reply: Reply) -> Step {
    try_advance(current, reply, &data()).unwrap()
}

fn fail(step: Step) -> ReconcileError {
    match step {
        Step::Fail(error) => error,
        step => panic!("{:?}", step),
    }
}

/// The reconciliation of the service once the deployment is patched.
fn deployed(service: &Service) -> (Reconciliation, Request) {
    let (current, _) = ask(apply(service, &data()));
    let (current, _) = ask(next(current, Reply::Patched));
    ask(next(current, Reply::Patched))
}

#[test]
fn a_settled_service_is_patched_and_nothing_else() {
    let (current, request) = ask(apply(&annotated("abc"), &data()));
    match request {
        Request::PatchClaim { target, claim } => {
            assert_eq!(target.namespace, "prod");
            assert_eq!(target.name, "web-tailscale-state");
            assert_eq!(target.field_manager, "surge.unrouted.uk");
            assert!(!target.force);
            assert_eq!(claim.metadata.name, Some(target.name));
        }
        request => panic!("{:?}", request),
    }
    let (current, request) = ask(next(current, Reply::Patched));
    match request {
        Request::PatchDeployment { target, deployment } => {
            assert_eq!(target.namespace, "prod");
            assert_eq!(target.name, "web-tailscale-proxy");
            assert_eq!(target.field_manager, "surge.unrouted.uk");
            assert!(!target.force);
            assert_eq!(deployment.metadata.name, Some(target.name));
        }
        request => panic!("{:?}", request),
    }
    let (current, request) = ask(next(current, Reply::Patched));
    match request {
        Request::ListMachines(http) => {
            assert_eq!(http.url, "https://hs.example.com/api/v1/machine")
        }
        request => panic!("{:?}", request),
    }
    let (current, request) = ask(next(current, Reply::Machines(vec![node("web", "ops")])));
    match request {
        Request::PatchService { target, service } => {
            assert_eq!(target.namespace, "prod");
            assert_eq!(target.name, "web");
            assert_eq!(target.field_manager, "surge.unrouted.uk");
            assert!(target.force);
            let annotations = service.metadata.annotations.unwrap();
            assert_eq!(annotations.get("surge.unrouted.uk/nodekey").unwrap(), "abc");
        }
        request => panic!("{:?}", request),
    }
    let (current, request) = ask(next(current, Reply::Patched));
    match request {
        Request::PatchServiceStatus { target, service } => {
            assert_eq!(target.name, "web");
            assert!(target.force);
            assert_eq!(service.ingress.unwrap(), ["100.64.0.1", "fd7a::1"]);
        }
        request => panic!("{:?}", request),
    }
    assert!(matches!(next(current, Reply::Patched), Step::Done(Action::Requeue(300))));
}

#[test]
fn a_new_node_is_registered_renamed_and_given_to_its_user() {
    let (current, request) = deployed(&service());
    match request {
        Request::AwaitStatus(watch) => {
            assert_eq!(watch.namespace, "prod");
            assert_eq!(watch.label_selector, "surge.unrouted.uk/service=web");
        }
        request => panic!("{:?}", request),
    }
    let (current, request) = ask(next(current, Reply::Status(login_status())));
    assert!(matches!(request, Request::ListMachines(_)));
    let (current, request) = ask(next(current, Reply::Machines(Vec::new())));
    match request {
        Request::RegisterNode(http) => {
            assert_eq!(http.query[0].value, "ops");
            assert_eq!(http.query[1].value, "nodekey:abc");
        }
        request => panic!("{:?}", request),
    }
    let (current, request) = ask(next(current, Reply::Machine(node("web-x1", "nobody"))));
    match request {
        Request::RenameNode(http) => {
            assert_eq!(http.url, "https://hs.example.com/api/v1/machine/7/rename/web")
        }
        request => panic!("{:?}", request),
    }
    assert!(matches!(&current.progress, Progress::NameSent(node) if node.name == "web-x1"));
    let (current, request) = ask(next(current, Reply::Machine(node("web", "nobody"))));
    match request {
        Request::ChangeUser(http) => {
            assert_eq!(http.url, "https://hs.example.com/api/v1/machine/7/user");
            assert_eq!(http.query[0].value, "ops");
        }
        request => panic!("{:?}", request),
    }
    let (current, request) = ask(next(current, Reply::Machine(node("web", "ops"))));
    assert!(matches!(request, Request::PatchService { .. }));
    let (current, request) = ask(next(current, Reply::Patched));
    assert!(matches!(request, Request::PatchServiceStatus { .. }));
    assert!(matches!(next(current, Reply::Patched), Step::Done(Action::Requeue(300))));
}

#[test]
fn a_known_node_is_not_registered_again() {
    let (current, _) = deployed(&service());
    let (current, _) = ask(next(current, Reply::Status(login_status())));
    let (_, request) = ask(next(current, Reply::Machines(vec![node("web", "ops")])));
    assert!(matches!(request, Request::PatchService { .. }));
}

#[test]
fn only_the_user_is_changed_where_the_name_is_right() {
    let (current, _) = deployed(&annotated("abc"));
    let (_, request) = ask(next(current, Reply::Machines(vec![node("web", "nobody")])));
    assert!(matches!(request, Request::ChangeUser(_)));
}

#[test]
fn a_running_node_must_be_known() {
    let (current, _) = deployed(&service());
    let (current, _) = ask(next(current, Reply::Status(running_status())));
    let error = fail(next(current, Reply::Machines(Vec::new())));
    assert_eq!(
        error.message().unwrap(),
        "Could not find node 'abc' in control plane, but node is in 'Running' state. Bailing for now"
    );
    let (current, _) = deployed(&service());
    let (current, _) = ask(next(current, Reply::Status(running_status())));
    let (_, request) = ask(next(current, Reply::Machines(vec![node("web", "ops")])));
    assert!(matches!(request, Request::PatchService { .. }));
}

#[test]
fn an_annotated_node_must_be_known() {
    let (current, _) = deployed(&annotated("gone"));
    let error = fail(next(current, Reply::Machines(vec![node("web", "ops")])));
    assert_eq!(
        error.message().unwrap(),
        "Could not find node 'gone' in control plane, but thats what tunnel is annotated as"
    );
}

#[test]
fn a_status_may_be_of_no_use() {
    let cases = [
        ("Stopped", "", "Unknown node state: Stopped"),
        ("NeedsLogin", "nonsense", "Invalid AuthURL"),
        ("NeedsLogin", "mailto:a@b", "AuthURL has no path segments"),
    ];
    for (backend_state, auth_url, message) in cases {
        let (current, _) = deployed(&service());
        let status = LocalStatus {
            backend_state: backend_state.to_string(),
            auth_url: auth_url.to_string(),
            this_node: LocalStatusSelf { node_key: String::new() },
        };
        let error = fail(next(current, Reply::Status(status)));
        assert_eq!(error.message().unwrap(), message);
    }
}

#[test]
fn a_node_key_without_a_colon_leads_nowhere() {
    let (current, _) = deployed(&service());
    let status = LocalStatus {
        backend_state: "Running".to_string(),
        auth_url: String::new(),
        this_node: LocalStatusSelf { node_key: "abc".to_string() },
    };
    assert_eq!(
        try_advance(current, Reply::Status(status), &data()).unwrap_err(),
        Refusal::NoNodeKey
    );
    let (current, _) = deployed(&service());
    let status = LocalStatus {
        backend_state: "NeedsLogin".to_string(),
        auth_url: "https://hs.example.com/register/abc".to_string(),
        this_node: LocalStatusSelf { node_key: "nodekey:abc".to_string() },
    };
    assert_eq!(
        try_advance(current, Reply::Status(status), &data()).unwrap_err(),
        Refusal::NoNodeKey
    );
}

#[test]
fn a_pod_that_does_not_run_in_time_is_an_error() {
    let (current, _) = deployed(&service());
    assert_eq!(fail(next(current, Reply::Timeout)).message().unwrap(), "Timeout");
}

#[test]
fn a_failed_request_ends_the_reconciliation() {
    let (current, _) = ask(apply(&service(), &data()));
    let error = fail(next(current, Reply::Failed));
    assert!(matches!(error, ReconcileError::RequestFailed));
    assert!(error.message().is_none());
    let (current, _) = deployed(&service());
    assert!(matches!(fail(next(current, Reply::Failed)), ReconcileError::RequestFailed));
    let (current, _) = deployed(&annotated("abc"));
    let (current, _) = ask(next(current, Reply::Machines(vec![node("x", "ops")])));
    assert!(matches!(fail(next(current, Reply::Failed)), ReconcileError::RequestFailed));
}

#[test]
fn a_reply_must_fit_its_request() {
    let (current, _) = ask(apply(&service(), &data()));
    assert_eq!(
        try_advance(current, Reply::Machines(Vec::new()), &data()).unwrap_err(),
        Refusal::UnfittingReply
    );
    let (current, _) = deployed(&annotated("abc"));
    assert_eq!(
        try_advance(current, Reply::Patched, &data()).unwrap_err(),
        Refusal::UnfittingReply
    );
    let (current, _) = deployed(&annotated("abc"));
    assert_eq!(
        try_advance(current, Reply::Status(login_status()), &data()).unwrap_err(),
        Refusal::UnfittingReply
    );
}

#[test]
fn a_fitting_reply_needs_no_trial() {
    let (current, _) = deployed(&service());
    let (current, request) = ask(advance(current, Reply::Status(login_status()), &data()));
    assert!(matches!(request, Request::ListMachines(_)));
    assert!(matches!(
        current.progress,
        Progress::Registering(Registration::FindLogin(key)) if key == "abc"
    ));
}

#[test]
fn a_service_of_another_class_is_left_alone() {
    let mut foreign = service();
    foreign.metadata.name = None;
    foreign.spec.as_mut().unwrap().load_balancer_class = Some("other".to_string());
    assert!(matches!(apply(&foreign, &data()), Step::Done(Action::Requeue(300))));
    foreign.spec.as_mut().unwrap().load_balancer_class = None;
    assert!(matches!(apply(&foreign, &data()), Step::Done(Action::Requeue(300))));
}

#[test]
fn what_a_service_lacks_is_reported() {
    let message = |service: &Service, data: &Data| fail(apply(service, data)).message().unwrap();
    let mut lacking = service();
    lacking.spec.as_mut().unwrap().cluster_ip = None;
    assert_eq!(message(&lacking, &data()), "Missing object key .spec.clusterIP");
    lacking.metadata.uid = None;
    assert_eq!(message(&lacking, &data()), "Missing object key .spec");
    assert!(matches!(fail(apply(&lacking, &data())), ReconcileError::MissingUid));
    lacking.metadata.namespace = None;
    assert_eq!(message(&lacking, &data()), "Missing object key .metadata.namespace");
    lacking.metadata.name = None;
    assert_eq!(message(&lacking, &data()), "Missing object key .metadata.name");
    lacking.spec = None;
    assert_eq!(message(&lacking, &data()), "Missing object key .spec");
    assert!(matches!(fail(apply(&lacking, &data())), ReconcileError::MissingSpec));
    let nobody = Data { default_user: None, ..data() };
    assert_eq!(message(&service(), &nobody), "Must set surge.unrouted.uk/user");
}

#[test]
fn names_fall_back_to_the_name_of_the_service() {
    let bare = plan(&service(), &data()).unwrap().unwrap();
    assert_eq!(bare.user, "ops");
    assert_eq!(bare.hostname, "web");
    assert_eq!(bare.dns_name, "web");
    assert_eq!(bare.nodekey, None);

    let mut labelled = service();
    labelled.metadata.labels = Some(map(&[("surge.unrouted.uk/hostname", "host")]));
    let named = plan(&labelled, &data()).unwrap().unwrap();
    assert_eq!(named.user, "ops");
    assert_eq!(named.hostname, "host");
    assert_eq!(named.dns_name, "host");

    labelled.metadata.labels = Some(map(&[
        ("surge.unrouted.uk/user", "dev"),
        ("surge.unrouted.uk/dnsname", "dns"),
    ]));
    let named = plan(&labelled, &Data { default_user: None, ..data() }).unwrap().unwrap();
    assert_eq!(named.user, "dev");
    assert_eq!(named.hostname, "web");
    assert_eq!(named.dns_name, "dns");
}

#[test]
fn a_deleted_service_takes_its_node_along() {
    let todo = cleanup(&annotated("abc"), &data());
    assert_eq!(conclude_cleanup(&todo, true).unwrap(), Action::AwaitChange);
    match todo {
        Cleanup::Remove(http) => {
            assert_eq!(http.method, Method::Delete);
            assert_eq!(http.url, "https://hs.example.com/api/v1/machine/7");
        }
        todo => panic!("{:?}", todo),
    }
}

#[test]
fn a_removal_that_fails_is_an_error() {
    let todo = cleanup(&annotated("abc"), &data());
    assert!(matches!(conclude_cleanup(&todo, false), Err(ReconcileError::RequestFailed)));
}

#[test]
fn a_deleted_service_without_a_node_id_is_let_go() {
    let mut stale = service();
    stale.metadata.annotations = Some(map(&[("surge.unrouted.uk/nodekey", "abc")]));
    let todo = cleanup(&stale, &data());
    assert!(matches!(todo, Cleanup::StaleNode));
    assert_eq!(conclude_cleanup(&todo, false).unwrap(), Action::AwaitChange);
    assert_eq!(conclude_cleanup(&todo, true).unwrap(), Action::AwaitChange);
    let todo = cleanup(&service(), &data());
    assert!(matches!(todo, Cleanup::Nothing));
    assert_eq!(conclude_cleanup(&todo, false).unwrap(), Action::AwaitChange);
    assert_eq!(conclude_cleanup(&todo, true).unwrap(), Action::AwaitChange);
}

#[test]
fn the_annotated_service_leads_back_to_the_node() {
    let (current, _) = deployed(&service());
    let (current, _) = ask(next(current, Reply::Status(running_status())));
    let (_, request) = ask(next(current, Reply::Machines(vec![node("web", "ops")])));
    let annotations = match request {
        Request::PatchService { service, .. } => service.metadata.annotations,
        request => panic!("{:?}", request),
    };
    let mut later = service();
    later.metadata.annotations = annotations;
    assert!(matches!(
        cleanup(&later, &data()),
        Cleanup::Remove(http) if http.url == "https://hs.example.com/api/v1/machine/7"
    ));
    let (_, request) = deployed(&later);
    assert!(matches!(request, Request::ListMachines(_)));
}

/// The requests that are made for the service on the replies, as text.
fn made(service: &Service, replies: Vec<Reply>, data: &Data) -> Vec<String> {
    let mut requests = Vec::new();
    let mut step = apply(service, data);
    let mut replies = replies.into_iter();
    while let Step::Ask(current, request) = step {
        requests.push(format!("{:?}", request));
        step = match replies.next() {
            Some(reply) => try_advance(current, reply, data).unwrap(),
            None => break,
        };
    }
    requests
}

fn count(requests: &[String], name: &str) -> usize {
    requests.iter().filter(|request| request.starts_with(name)).count()
}

#[test]
fn a_node_is_changed_exactly_where_it_differs() {
    for (name, user) in [("web", "ops"), ("x", "ops"), ("web", "nobody"), ("x", "nobody")] {
        let renamed: usize = if name == "web" { 0 } else { 1 };
        let moved: usize = if user == "ops" { 0 } else { 1 };
        // Another machine with the key comes later in the list, and the replies to the changes
        // show other addresses.
        let mut later = node("later", "later");
        later.id = "8".to_string();
        let mut replies = vec![
            Reply::Patched,
            Reply::Patched,
            Reply::Machines(vec![node(name, user), later]),
        ];
        for _ in 0..renamed + moved {
            let mut changed = node("web", "ops");
            changed.ip_addresses = vec!["100.64.0.9".to_string()];
            replies.push(Reply::Machine(changed));
        }
        replies.push(Reply::Patched);
        replies.push(Reply::Patched);
        let answered = replies.len();
        let requests = made(&annotated("abc"), replies, &data());
        assert_eq!(requests.len(), answered);
        assert_eq!(count(&requests, "RenameNode"), renamed);
        assert_eq!(count(&requests, "ChangeUser"), moved);
        assert_eq!(count(&requests, "RegisterNode"), 0);
        assert!(requests[0].starts_with("PatchClaim"));
        assert!(requests[1].starts_with("PatchDeployment"));
        assert!(requests[2].starts_with("ListMachines"));
        let last = &requests[answered - 1];
        assert!(requests[answered - 2].starts_with("PatchService "));
        assert!(last.starts_with("PatchServiceStatus"));
        assert!(last.contains("100.64.0.1") && !last.contains("100.64.0.9"));
    }
}

fn registration_replies() -> Vec<Reply> {
    vec![
        Reply::Patched,
        Reply::Patched,
        Reply::Status(login_status()),
        Reply::Machines(Vec::new()),
        Reply::Machine(node("web", "nobody")),
        Reply::Machine(node("web", "dev")),
        Reply::Patched,
        Reply::Patched,
    ]
}

#[test]
fn a_user_label_makes_the_default_user_irrelevant() {
    let mut labelled = service();
    labelled.metadata.labels = Some(map(&[("surge.unrouted.uk/user", "dev")]));
    let requests = made(&labelled, registration_replies(), &data());
    assert_eq!(requests.len(), 8);
    for default_user in [None, Some("root".to_string())] {
        let other = Data { default_user, ..data() };
        assert_eq!(made(&labelled, registration_replies(), &other), requests);
    }
}

#[test]
fn the_search_reads_the_user_only_to_register() {
    let replies = || registration_replies().into_iter().take(4).collect::<Vec<Reply>>();
    let ours = made(&service(), replies(), &data());
    let other = Data { default_user: Some("root".to_string()), ..data() };
    let theirs = made(&service(), replies(), &other);
    assert_eq!(ours[..4], theirs[..4]);
    assert!(ours[4].starts_with("RegisterNode") && ours[4].contains("\"ops\""));
    assert_eq!(theirs[4], ours[4].replace("\"ops\"", "\"root\""));
}

#[test]
fn objects_do_not_depend_on_annotations() {
    let (current, claim) = ask(apply(&service(), &data()));
    let (later, same_claim) = ask(apply(&annotated("abc"), &data()));
    assert_eq!(format!("{:?}", claim), format!("{:?}", same_claim));
    let (_, deployment) = ask(next(current, Reply::Patched));
    let (_, same_deployment) = ask(next(later, Reply::Patched));
    assert_eq!(format!("{:?}", deployment), format!("{:?}", same_deployment));
}

#[test]
fn a_failed_reconciliation_is_soon_tried_again() {
    assert_eq!(error_policy(), Action::Requeue(1));
}

#[test]
fn a_report_shows_the_sources_of_an_error() {
    let sources = vec!["Failed to list machines".to_string(), "refused".to_string()];
    assert_eq!(
        error_report("reconciler failed".to_string(), &sources),
        "reconciler failed: Failed to list machines\n: refused\n"
    );
    assert_eq!(error_report("alone".to_string(), &Vec::new()), "alone");
}
