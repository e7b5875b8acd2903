//! The objects that the controller keeps in the cluster for a service.

use crate::api::{Node, NodeView};
use crate::context::{Data, DataView};
use crate::objects::{
    Container, ContainerView, Deployment, DeploymentSpec, DeploymentSpecView, DeploymentView,
    EnvVar, EnvVarView, ObjectMeta, ObjectMetaView, OwnerReference, OwnerReferenceView,
    PersistentVolumeClaim, PersistentVolumeClaimSpec, PersistentVolumeClaimSpecView,
    PersistentVolumeClaimView, PodSpec, PodSpecView, PodTemplateSpec, PodTemplateSpecView,
    SecurityContext, SecurityContextView, Service, ServiceSpec, ServiceSpecView, ServiceView,
    Volume, VolumeMount, VolumeMountView, VolumeView,
};
use crate::plan::{Plan, PlanView, MACHINE_ID_ANNOTATION, NODEKEY_ANNOTATION};
use crate::string_map::StringMap;
use crate::text::views;
use kube::Resource;
use vstd::prelude::*;

verus! {

/// The label of a service's objects that holds the name of the service.
pub const SERVICE_LABEL: &'static str = "surge.unrouted.uk/service";

/// The name of the volume that keeps the state of the proxy.
pub const STATE_VOLUME: &'static str = "tailscale-state";

/// Where the proxy keeps its state.
pub const STATE_DIR: &'static str = "/var/lib/tailscale";

/// The container of the proxy.
pub const PROXY_CONTAINER: &'static str = "tailscale";

/// `kube::Resource::api_version` of the `Service` of `k8s-openapi`: the constant `v1`.
#[verifier::external_body]
fn service_api_version() -> (r: String)
    ensures
        r@ == "v1"@,
{
    k8s_openapi::api::core::v1::Service::api_version(&()).to_string()
}

/// `kube::Resource::kind` of the `Service` of `k8s-openapi`: the constant `Service`.
#[verifier::external_body]
fn service_kind() -> (r: String)
    ensures
        r@ == "Service"@,
{
    k8s_openapi::api::core::v1::Service::kind(&()).to_string()
}

/// A map with one entry.
pub open spec fn singleton(key: Seq<char>, value: Seq<char>) -> Map<Seq<char>, Seq<char>> {
    Map::empty().insert(key, value)
}

/// The labels of what belongs to the service with the name.
pub open spec fn labels_of(name: Seq<char>) -> Map<Seq<char>, Seq<char>> {
    singleton(SERVICE_LABEL@, name)
}

/// The name of the volume claim of the service with the name.
pub open spec fn claim_name(name: Seq<char>) -> Seq<char> {
    name + "-tailscale-state"@
}

/// The name of the deployment of the service with the name.
pub open spec fn deployment_name(name: Seq<char>) -> Seq<char> {
    name + "-tailscale-proxy"@
}

/// The service, as the owner of its objects.
pub open spec fn owner_of(plan: PlanView) -> OwnerReferenceView {
    OwnerReferenceView { api_version: "v1"@, kind: "Service"@, name: plan.name, uid: plan.uid }
}

/// The metadata of an object that belongs to the service.
pub open spec fn owned_metadata(plan: PlanView, name: Seq<char>) -> ObjectMetaView {
    ObjectMetaView {
        name: Some(name),
        namespace: Some(plan.namespace),
        uid: None,
        labels: Some(labels_of(plan.name)),
        annotations: None,
        owner_references: Some(seq![owner_of(plan)]),
    }
}

/// The volume claim of the service.
pub open spec fn desired_claim(plan: PlanView, ctx: DataView) -> PersistentVolumeClaimView {
    PersistentVolumeClaimView {
        metadata: owned_metadata(plan, claim_name(plan.name)),
        spec: PersistentVolumeClaimSpecView {
            storage_class_name: ctx.storage_class,
            access_modes: seq!["ReadWriteOnce"@],
            requests: singleton("storage"@, "50Mi"@),
        },
    }
}

/// The container that allows the pod to forward packets, before the proxy starts.
pub open spec fn forwarding_container() -> ContainerView {
    ContainerView {
        name: "setup-forwarding"@,
        image: "busybox"@,
        command: Some(seq!["/bin/sh"@]),
        args: Some(
            seq!["-c"@, "sysctl -w net.ipv4.ip_forward=1 net.ipv6.conf.all.forwarding=1"@],
        ),
        env: None,
        volume_mounts: None,
        security_context: SecurityContextView { privileged: Some(true), added_capabilities: None },
        requests: Some(singleton("cpu"@, "1m"@).insert("memory"@, "1Mi"@)),
    }
}

/// An environment variable with a value.
pub open spec fn env_var(name: Seq<char>, value: Seq<char>) -> EnvVarView {
    EnvVarView { name, value: Some(value) }
}

/// The environment of the proxy.
pub open spec fn proxy_env(plan: PlanView, ctx: DataView) -> Seq<EnvVarView> {
    seq![
        env_var("TS_STATE_DIR"@, STATE_DIR@),
        env_var("TS_USERSPACE"@, "false"@),
        env_var("TS_AUTH_ONCE"@, "true"@),
        EnvVarView { name: "TS_KUBE_SECRET"@, value: None },
        env_var("TS_HOSTNAME"@, plan.hostname),
        env_var("TS_DEST_IP"@, plan.cluster_ip),
        env_var("TS_EXTRA_ARGS"@, "--login-server="@ + ctx.base_url),
    ]
}

/// The container of the proxy.
pub open spec fn proxy_container(plan: PlanView, ctx: DataView) -> ContainerView {
    ContainerView {
        name: PROXY_CONTAINER@,
        image: ctx.tailscale_image,
        command: None,
        args: None,
        env: Some(proxy_env(plan, ctx)),
        volume_mounts: Some(seq![VolumeMountView { name: STATE_VOLUME@, mount_path: STATE_DIR@ }]),
        security_context: SecurityContextView {
            privileged: None,
            added_capabilities: Some(seq!["NET_ADMIN"@]),
        },
        requests: None,
    }
}

/// The pod of the proxy.
pub open spec fn proxy_pod(plan: PlanView, ctx: DataView) -> PodSpecView {
    PodSpecView {
        volumes: seq![
            VolumeView {
                name: STATE_VOLUME@,
                claim_name: claim_name(plan.name),
                read_only: false,
            },
        ],
        init_containers: seq![forwarding_container()],
        containers: seq![proxy_container(plan, ctx)],
    }
}

/// The deployment of the service.
pub open spec fn desired_deployment(plan: PlanView, ctx: DataView) -> DeploymentView {
    DeploymentView {
        metadata: owned_metadata(plan, deployment_name(plan.name)),
        spec: DeploymentSpecView {
            strategy_type: "Recreate"@,
            match_labels: labels_of(plan.name),
            template: PodTemplateSpecView {
                labels: labels_of(plan.name),
                spec: proxy_pod(plan, ctx),
            },
        },
    }
}

/// The annotations by which a service remembers its node.
pub open spec fn node_annotations(node: NodeView) -> Map<Seq<char>, Seq<char>> {
    singleton(NODEKEY_ANNOTATION@, node.node_key).insert(MACHINE_ID_ANNOTATION@, node.id)
}

/// What is to be set on the service once its node is known.
pub open spec fn desired_service(plan: PlanView, node: NodeView) -> ServiceView {
    ServiceView {
        metadata: ObjectMetaView {
            name: Some(plan.name),
            namespace: Some(plan.namespace),
            uid: None,
            labels: None,
            annotations: Some(node_annotations(node)),
            owner_references: None,
        },
        spec: Some(
            ServiceSpecView {
                load_balancer_class: None,
                cluster_ip: None,
                load_balancer_ip: if node.ip_addresses.len() == 0 {
                    None
                } else {
                    Some(node.ip_addresses.last())
                },
            },
        ),
        ingress: None,
    }
}

/// What is to be set on the status of the service, where its node has the addresses.
pub open spec fn desired_status(plan: PlanView, addresses: Seq<Seq<char>>) -> ServiceView {
    ServiceView {
        metadata: ObjectMetaView {
            name: Some(plan.name),
            namespace: Some(plan.namespace),
            uid: None,
            labels: None,
            annotations: None,
            owner_references: None,
        },
        spec: None,
        ingress: Some(addresses),
    }
}

fn labels(name: &str) -> (r: StringMap)
    ensures
        r@ == labels_of(name@),
{
    StringMap::new().with(SERVICE_LABEL.to_owned(), name.to_owned())
}

fn owner_reference(plan: &Plan) -> (r: OwnerReference)
    ensures
        r@ == owner_of(plan@),
{
    OwnerReference {
        api_version: service_api_version(),
        kind: service_kind(),
        name: plan.name.clone(),
        uid: plan.uid.clone(),
    }
}

fn metadata(plan: &Plan, name: String) -> (r: ObjectMeta)
    ensures
        r@ == owned_metadata(plan@, name@),
{
    let r = ObjectMeta {
        name: Some(name),
        namespace: Some(plan.namespace.clone()),
        uid: None,
        labels: Some(labels(plan.name.as_str())),
        annotations: None,
        owner_references: Some(vec![owner_reference(plan)]),
    };
    assert(r@ =~~= owned_metadata(plan@, name@));
    r
}

/// The name of the volume claim of the service with the name.
pub fn persistent_volume_claim_name(name: &str) -> (r: String)
    ensures
        r@ == claim_name(name@),
{
    name.to_owned().concat("-tailscale-state")
}

/// The volume claim of the service.
pub fn persistent_volume_claim(plan: &Plan, ctx: &Data) -> (r: PersistentVolumeClaim)
    ensures
        r@ == desired_claim(plan@, ctx@),
{
    let r = PersistentVolumeClaim {
        metadata: metadata(plan, persistent_volume_claim_name(plan.name.as_str())),
        spec: PersistentVolumeClaimSpec {
            storage_class_name: ctx.storage_class.clone(),
            access_modes: vec!["ReadWriteOnce".to_owned()],
            requests: StringMap::new().with("storage".to_owned(), "50Mi".to_owned()),
        },
    };
    assert(r@ =~~= desired_claim(plan@, ctx@));
    r
}

fn setup_forwarding() -> (r: Container)
    ensures
        r@ == forwarding_container(),
{
    let r = Container {
        name: "setup-forwarding".to_owned(),
        image: "busybox".to_owned(),
        command: Some(vec!["/bin/sh".to_owned()]),
        args: Some(
            vec![
                "-c".to_owned(),
                "sysctl -w net.ipv4.ip_forward=1 net.ipv6.conf.all.forwarding=1".to_owned(),
            ],
        ),
        env: None,
        volume_mounts: None,
        security_context: SecurityContext { privileged: Some(true), added_capabilities: None },
        requests: Some(
            StringMap::new().with("cpu".to_owned(), "1m".to_owned()).with(
                "memory".to_owned(),
                "1Mi".to_owned(),
            ),
        ),
    };
    assert(r@ =~~= forwarding_container());
    r
}

fn variable(name: &str, value: String) -> (r: EnvVar)
    ensures
        r@ == env_var(name@, value@),
{
    EnvVar { name: name.to_owned(), value: Some(value) }
}

fn environment(plan: &Plan, ctx: &Data) -> (r: Vec<EnvVar>)
    ensures
        views(r@) == proxy_env(plan@, ctx@),
{
    let r = vec![
        variable("TS_STATE_DIR", STATE_DIR.to_owned()),
        variable("TS_USERSPACE", "false".to_owned()),
        variable("TS_AUTH_ONCE", "true".to_owned()),
        EnvVar { name: "TS_KUBE_SECRET".to_owned(), value: None },
        variable("TS_HOSTNAME", plan.hostname.clone()),
        variable("TS_DEST_IP", plan.cluster_ip.clone()),
        variable("TS_EXTRA_ARGS", "--login-server=".to_owned().concat(ctx.base_url.as_str())),
    ];
    assert(views(r@) =~= proxy_env(plan@, ctx@));
    r
}

fn tailscale(plan: &Plan, ctx: &Data) -> (r: Container)
    ensures
        r@ == proxy_container(plan@, ctx@),
{
    let r = Container {
        name: PROXY_CONTAINER.to_owned(),
        image: ctx.tailscale_image.clone(),
        command: None,
        args: None,
        env: Some(environment(plan, ctx)),
        volume_mounts: Some(
            vec![VolumeMount { name: STATE_VOLUME.to_owned(), mount_path: STATE_DIR.to_owned() }],
        ),
        security_context: SecurityContext {
            privileged: None,
            added_capabilities: Some(vec!["NET_ADMIN".to_owned()]),
        },
        requests: None,
    };
    assert(r@ =~~= proxy_container(plan@, ctx@));
    r
}

fn pod(plan: &Plan, ctx: &Data) -> (r: PodSpec)
    ensures
        r@ == proxy_pod(plan@, ctx@),
{
    let r = PodSpec {
        volumes: vec![
            Volume {
                name: STATE_VOLUME.to_owned(),
                claim_name: persistent_volume_claim_name(plan.name.as_str()),
                read_only: false,
            },
        ],
        init_containers: vec![setup_forwarding()],
        containers: vec![tailscale(plan, ctx)],
    };
    assert(r@ =~~= proxy_pod(plan@, ctx@));
    r
}

/// The name of the deployment of the service with the name.
pub fn proxy_deployment_name(name: &str) -> (r: String)
    ensures
        r@ == deployment_name(name@),
{
    name.to_owned().concat("-tailscale-proxy")
}

/// The deployment of the service.
pub fn deployment(plan: &Plan, ctx: &Data) -> (r: Deployment)
    ensures
        r@ == desired_deployment(plan@, ctx@),
{
    Deployment {
        metadata: metadata(plan, proxy_deployment_name(plan.name.as_str())),
        spec: DeploymentSpec {
            strategy_type: "Recreate".to_owned(),
            match_labels: labels(plan.name.as_str()),
            template: PodTemplateSpec {
                labels: labels(plan.name.as_str()),
                spec: pod(plan, ctx),
            },
        },
    }
}

/// What is to be set on the service once its node is known.
pub fn annotated_service(plan: &Plan, node: &Node) -> (r: Service)
    ensures
        r@ == desired_service(plan@, node@),
{
    let addresses = &node.ip_addresses;
    let load_balancer_ip = if addresses.len() == 0 {
        None
    } else {
        Some(addresses[addresses.len() - 1].clone())
    };
    Service {
        metadata: ObjectMeta {
            name: Some(plan.name.clone()),
            namespace: Some(plan.namespace.clone()),
            uid: None,
            labels: None,
            annotations: Some(
                StringMap::new().with(NODEKEY_ANNOTATION.to_owned(), node.node_key.clone()).with(
                    MACHINE_ID_ANNOTATION.to_owned(),
                    node.id.clone(),
                ),
            ),
            owner_references: None,
        },
        spec: Some(ServiceSpec { load_balancer_class: None, cluster_ip: None, load_balancer_ip }),
        ingress: None,
    }
}

/// What is to be set on the status of the service, where its node has the addresses.
pub fn service_status(plan: &Plan, addresses: Vec<String>) -> (r: Service)
    ensures
        r@ == desired_status(plan@, views(addresses@)),
{
    Service {
        metadata: ObjectMeta {
            name: Some(plan.name.clone()),
            namespace: Some(plan.namespace.clone()),
            uid: None,
            labels: None,
            annotations: None,
            owner_references: None,
        },
        spec: None,
        ingress: Some(addresses),
    }
}

} // verus!
