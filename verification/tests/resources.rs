use surge::api::{Node, User};
use surge::context::Data;
use surge::plan::Plan;
use surge::pod_watch::pod_watch;
use surge::resources::{
    annotated_service, deployment, persistent_volume_claim, service_status,
};

fn plan() -> Plan {
    Plan {
        name: "web".to_string(),
        namespace: "prod".to_string(),
        uid: "u-1".to_string(),
        cluster_ip: "10.0.0.7".to_string(),
        user: "ops".to_string(),
        hostname: "web-host".to_string(),
        dns_name: "web-dns".to_string(),
        nodekey: None,
    }
}

fn data() -> Data {
    Data {
        base_url: "https://hs.example.com".to_string(),
        default_user: None,
        load_balancer_class: "headscale".to_string(),
        storage_class: "fast".to_string(),
        tailscale_image: "tailscale/tailscale:stable".to_string(),
    }
}

fn node(addresses: &[&str]) -> Node {
    Node {
        id: "7".to_string(),
        name: "web-dns".to_string(),
        ip_addresses: addresses.iter().map(|address| address.to_string()).collect(),
        node_key: "abc".to_string(),
        user: User { name: "ops".to_string() },
    }
}

#[test]
fn the_claim_asks_for_storage() {
    let claim = persistent_volume_claim(&plan(), &data());
    assert_eq!(claim.metadata.name.as_deref(), Some("web-tailscale-state"));
    assert_eq!(claim.metadata.namespace.as_deref(), Some("prod"));
    let labels = claim.metadata.labels.unwrap();
    assert_eq!(labels.entries().len(), 1);
    assert_eq!(labels.get("surge.unrouted.uk/service").unwrap(), "web");
    assert!(claim.metadata.annotations.is_none());
    assert_eq!(claim.spec.storage_class_name, "fast");
    assert_eq!(claim.spec.access_modes, ["ReadWriteOnce"]);
    assert_eq!(claim.spec.requests.entries().len(), 1);
    assert_eq!(claim.spec.requests.get("storage").unwrap(), "50Mi");
}

#[test]
fn objects_are_owned_by_the_service() {
    for owners in [
        persistent_volume_claim(&plan(), &data()).metadata.owner_references,
        deployment(&plan(), &data()).metadata.owner_references,
    ] {
        let owners = owners.unwrap();
        assert_eq!(owners.len(), 1);
        assert_eq!(owners[0].api_version, "v1");
        assert_eq!(owners[0].kind, "Service");
        assert_eq!(owners[0].name, "web");
        assert_eq!(owners[0].uid, "u-1");
    }
}

#[test]
fn the_deployment_selects_its_pods() {
    let deployment = deployment(&plan(), &data());
    assert_eq!(deployment.metadata.name.as_deref(), Some("web-tailscale-proxy"));
    assert_eq!(deployment.metadata.namespace.as_deref(), Some("prod"));
    assert_eq!(deployment.spec.strategy_type, "Recreate");
    let label = "surge.unrouted.uk/service";
    assert_eq!(deployment.metadata.labels.unwrap().get(label).unwrap(), "web");
    assert_eq!(deployment.spec.match_labels.get(label).unwrap(), "web");
    assert_eq!(deployment.spec.template.labels.get(label).unwrap(), "web");
}

#[test]
fn pods_of_another_service_are_not_selected() {
    let labels = deployment(&plan(), &data()).spec.template.labels;
    let label = labels.get("surge.unrouted.uk/service").unwrap();
    let selected = format!("surge.unrouted.uk/service={}", label);
    assert_eq!(pod_watch("prod", "web").label_selector, selected);
    for name in ["we", "web2", ""] {
        assert_ne!(pod_watch("prod", name).label_selector, selected);
        let other = deployment(&Plan { name: name.to_string(), ..plan() }, &data());
        let wanted = other.spec.match_labels;
        assert_eq!(wanted.get("surge.unrouted.uk/service").unwrap(), name);
        assert_ne!(wanted.get("surge.unrouted.uk/service").unwrap(), label);
    }
}

#[test]
fn the_pod_is_set_up_to_forward() {
    let pod = deployment(&plan(), &data()).spec.template.spec;
    assert_eq!(pod.init_containers.len(), 1);
    let setup = &pod.init_containers[0];
    assert_eq!(setup.name, "setup-forwarding");
    assert_eq!(setup.image, "busybox");
    assert_eq!(setup.command.as_ref().unwrap()[..], ["/bin/sh"]);
    assert_eq!(
        setup.args.as_ref().unwrap()[..],
        ["-c", "sysctl -w net.ipv4.ip_forward=1 net.ipv6.conf.all.forwarding=1"]
    );
    assert_eq!(setup.security_context.privileged, Some(true));
    assert!(setup.security_context.added_capabilities.is_none());
    let requests = setup.requests.as_ref().unwrap();
    assert_eq!(requests.entries().len(), 2);
    assert_eq!(requests.get("cpu").unwrap(), "1m");
    assert_eq!(requests.get("memory").unwrap(), "1Mi");
    assert!(setup.env.is_none());
    assert!(setup.volume_mounts.is_none());
}

#[test]
fn the_proxy_keeps_its_state_in_the_claim() {
    let claim = persistent_volume_claim(&plan(), &data());
    let pod = deployment(&plan(), &data()).spec.template.spec;
    assert_eq!(pod.volumes.len(), 1);
    assert_eq!(pod.volumes[0].name, "tailscale-state");
    assert_eq!(Some(&pod.volumes[0].claim_name), claim.metadata.name.as_ref());
    assert!(!pod.volumes[0].read_only);
    let mounts = pod.containers[0].volume_mounts.as_ref().unwrap();
    assert_eq!(mounts.len(), 1);
    assert_eq!(mounts[0].name, "tailscale-state");
    assert_eq!(mounts[0].mount_path, "/var/lib/tailscale");
}

#[test]
fn the_proxy_knows_where_to_log_in_and_to_forward() {
    let pod = deployment(&plan(), &data()).spec.template.spec;
    assert_eq!(pod.containers.len(), 1);
    let proxy = &pod.containers[0];
    assert_eq!(proxy.name, "tailscale");
    assert_eq!(proxy.image, "tailscale/tailscale:stable");
    assert!(proxy.command.is_none());
    assert!(proxy.args.is_none());
    assert!(proxy.requests.is_none());
    assert_eq!(proxy.security_context.privileged, None);
    assert_eq!(
        proxy.security_context.added_capabilities.as_ref().unwrap()[..],
        ["NET_ADMIN"]
    );
    let env: Vec<(&str, Option<&str>)> = proxy
        .env
        .as_ref()
        .unwrap()
        .iter()
        .map(|var| (var.name.as_str(), var.value.as_deref()))
        .collect();
    assert_eq!(
        env,
        [
            ("TS_STATE_DIR", Some("/var/lib/tailscale")),
            ("TS_USERSPACE", Some("false")),
            ("TS_AUTH_ONCE", Some("true")),
            ("TS_KUBE_SECRET", None),
            ("TS_HOSTNAME", Some("web-host")),
            ("TS_DEST_IP", Some("10.0.0.7")),
            ("TS_EXTRA_ARGS", Some("--login-server=https://hs.example.com")),
        ]
    );
}

#[test]
fn the_service_learns_its_node() {
    let service = annotated_service(&plan(), &node(&["100.64.0.1", "fd7a::1"]));
    assert_eq!(service.metadata.name.as_deref(), Some("web"));
    assert_eq!(service.metadata.namespace.as_deref(), Some("prod"));
    assert!(service.metadata.labels.is_none());
    assert!(service.metadata.owner_references.is_none());
    let annotations = service.metadata.annotations.unwrap();
    assert_eq!(annotations.entries().len(), 2);
    assert_eq!(annotations.get("surge.unrouted.uk/nodekey").unwrap(), "abc");
    assert_eq!(annotations.get("surge.unrouted.uk/machine-id").unwrap(), "7");
    let spec = service.spec.unwrap();
    assert_eq!(spec.load_balancer_ip.as_deref(), Some("fd7a::1"));
    assert!(spec.load_balancer_class.is_none());
    assert!(spec.cluster_ip.is_none());
    assert!(service.ingress.is_none());
}

#[test]
fn a_node_without_addresses_gives_no_load_balancer_ip() {
    let service = annotated_service(&plan(), &node(&[]));
    assert!(service.spec.unwrap().load_balancer_ip.is_none());
}

#[test]
fn the_status_lists_all_addresses() {
    let addresses = node(&["100.64.0.1", "fd7a::1"]).ip_addresses;
    let service = service_status(&plan(), addresses);
    assert_eq!(service.metadata.name.as_deref(), Some("web"));
    assert_eq!(service.metadata.namespace.as_deref(), Some("prod"));
    assert!(service.metadata.annotations.is_none());
    assert!(service.spec.is_none());
    assert_eq!(service.ingress.unwrap(), ["100.64.0.1", "fd7a::1"]);
}
