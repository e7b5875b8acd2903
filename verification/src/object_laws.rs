//! What holds of the objects that are made for a service, over the plan and the configuration.

use crate::api::NodeView;
use crate::context::DataView;
use crate::plan::PlanView;
use crate::reconcile::{claim_request, deployment_request, service_request, status_request};
use crate::request::{target_of, PatchTargetView, RequestView};
use crate::resources::{
    desired_claim, desired_deployment, desired_service, desired_status,
};
use vstd::prelude::*;

verus! {

/// The volume claim lies in the namespace of the service, has the name of the service with a
/// suffix, is labelled with that name and owned by the service, and asks for a small volume of the
/// configured storage class that one node mounts at a time.
pub proof fn lemma_claim_asks_for_the_configured_storage(plan: PlanView, ctx: DataView)
    ensures
        ({
            let claim = desired_claim(plan, ctx);
            &&& claim.metadata.name == Some(plan.name + "-tailscale-state"@)
            &&& claim.metadata.namespace == Some(plan.namespace)
            &&& claim.metadata.uid is None
            &&& claim.metadata.labels == Some(map!["surge.unrouted.uk/service"@ => plan.name])
            &&& claim.metadata.annotations is None
            &&& claim.spec.storage_class_name == ctx.storage_class
            &&& claim.spec.access_modes == seq!["ReadWriteOnce"@]
            &&& claim.spec.requests == map!["storage"@ => "50Mi"@]
        }),
{
}

/// The one owner of the volume claim and of the deployment is the service, by its name and uid.
pub proof fn lemma_owner_is_the_service(plan: PlanView, ctx: DataView)
    ensures
        ({
            let claim = desired_claim(plan, ctx).metadata.owner_references;
            let deployment = desired_deployment(plan, ctx).metadata.owner_references;
            &&& claim == deployment
            &&& claim matches Some(owners) && owners.len() == 1 && owners[0].api_version == "v1"@
                && owners[0].kind == "Service"@ && owners[0].name == plan.name && owners[0].uid
                == plan.uid
        }),
{
}

/// The deployment lies in the namespace of the service, has the name of the service with a suffix,
/// and is labelled with that name. It replaces a pod only once the old one is gone, and knows its
/// pods by the label that they have.
pub proof fn lemma_deployment_is_for_the_service(plan: PlanView, ctx: DataView)
    ensures
        ({
            let deployment = desired_deployment(plan, ctx);
            let labels = map!["surge.unrouted.uk/service"@ => plan.name];
            &&& deployment.metadata.name == Some(plan.name + "-tailscale-proxy"@)
            &&& deployment.metadata.namespace == Some(plan.namespace)
            &&& deployment.metadata.uid is None
            &&& deployment.metadata.labels == Some(labels)
            &&& deployment.metadata.annotations is None
            &&& deployment.spec.strategy_type == "Recreate"@
            &&& deployment.spec.match_labels == labels
            &&& deployment.spec.template.labels == labels
        }),
{
}

/// The proxy is the one container of the pod, and has the configured image.
pub proof fn lemma_proxy_has_the_configured_image(plan: PlanView, ctx: DataView)
    ensures
        ({
            let pod = desired_deployment(plan, ctx).spec.template.spec;
            &&& pod.containers.len() == 1
            &&& pod.containers[0].name == "tailscale"@
            &&& pod.containers[0].image == ctx.tailscale_image
            &&& pod.containers[0].command is None
            &&& pod.containers[0].args is None
            &&& pod.containers[0].requests is None
        }),
{
}

/// The proxy is told where it keeps its state, its host name, where it forwards to, and where it
/// logs in.
pub proof fn lemma_proxy_environment(plan: PlanView, ctx: DataView)
    ensures
        desired_deployment(plan, ctx).spec.template.spec.containers[0].env matches Some(env) && {
            &&& env.len() == 7
            &&& env[0].name == "TS_STATE_DIR"@ && env[0].value == Some("/var/lib/tailscale"@)
            &&& env[1].name == "TS_USERSPACE"@ && env[1].value == Some("false"@)
            &&& env[2].name == "TS_AUTH_ONCE"@ && env[2].value == Some("true"@)
            &&& env[3].name == "TS_KUBE_SECRET"@ && env[3].value is None
            &&& env[4].name == "TS_HOSTNAME"@ && env[4].value == Some(plan.hostname)
            &&& env[5].name == "TS_DEST_IP"@ && env[5].value == Some(plan.cluster_ip)
            &&& env[6].name == "TS_EXTRA_ARGS"@ && env[6].value == Some(
                "--login-server="@ + ctx.base_url,
            )
        },
{
}

/// The proxy sees the volume of the claim where it keeps its state, and may write to it.
pub proof fn lemma_proxy_writes_to_the_claim(plan: PlanView, ctx: DataView)
    ensures
        ({
            let pod = desired_deployment(plan, ctx).spec.template.spec;
            &&& pod.volumes.len() == 1
            &&& pod.volumes[0].name == "tailscale-state"@
            &&& Some(pod.volumes[0].claim_name) == desired_claim(plan, ctx).metadata.name
            &&& !pod.volumes[0].read_only
            &&& pod.containers[0].volume_mounts matches Some(mounts) && mounts.len() == 1
                && mounts[0].name == pod.volumes[0].name && mounts[0].mount_path
                == "/var/lib/tailscale"@
        }),
{
}

/// The proxy may configure the network, and is not privileged otherwise.
pub proof fn lemma_proxy_privileges(plan: PlanView, ctx: DataView)
    ensures
        ({
            let context = desired_deployment(
                plan,
                ctx,
            ).spec.template.spec.containers[0].security_context;
            &&& context.privileged is None
            &&& context.added_capabilities == Some(seq!["NET_ADMIN"@])
        }),
{
}

/// Before the proxy starts, one privileged container allows the pod to forward packets. It is the
/// same for every service.
pub proof fn lemma_forwarding_is_set_up(plan: PlanView, ctx: DataView)
    ensures
        ({
            let pod = desired_deployment(plan, ctx).spec.template.spec;
            let setup = pod.init_containers[0];
            &&& pod.init_containers.len() == 1
            &&& setup.name == "setup-forwarding"@
            &&& setup.image == "busybox"@
            &&& setup.command == Some(seq!["/bin/sh"@])
            &&& setup.args == Some(
                seq!["-c"@, "sysctl -w net.ipv4.ip_forward=1 net.ipv6.conf.all.forwarding=1"@],
            )
            &&& setup.env is None
            &&& setup.volume_mounts is None
            &&& setup.security_context.privileged == Some(true)
            &&& setup.security_context.added_capabilities is None
            &&& setup.requests == Some(map!["cpu"@ => "1m"@, "memory"@ => "1Mi"@])
        }),
{
}

/// The user, the name on the tailnet and the known node key of a plan change neither the volume
/// claim nor the deployment.
pub proof fn lemma_objects_do_not_depend_on_the_node(
    plan: PlanView,
    user: Seq<char>,
    dns_name: Seq<char>,
    nodekey: Option<Seq<char>>,
    ctx: DataView,
)
    ensures
        ({
            let other = PlanView { user, dns_name, nodekey, ..plan };
            &&& desired_claim(other, ctx) == desired_claim(plan, ctx)
            &&& desired_deployment(other, ctx) == desired_deployment(plan, ctx)
        }),
{
}

/// What is set on the service is its two annotations, with the key and the id of the node, and the
/// last address of the node, where it has one.
pub proof fn lemma_service_learns_its_node(plan: PlanView, node: NodeView)
    ensures
        ({
            let service = desired_service(plan, node);
            &&& service.metadata.name == Some(plan.name)
            &&& service.metadata.namespace == Some(plan.namespace)
            &&& service.metadata.uid is None
            &&& service.metadata.labels is None
            &&& service.metadata.owner_references is None
            &&& service.metadata.annotations == Some(
                map![
                    "surge.unrouted.uk/nodekey"@ => node.node_key,
                    "surge.unrouted.uk/machine-id"@ => node.id,
                ],
            )
            &&& service.spec matches Some(spec) && spec.load_balancer_class is None
                && spec.cluster_ip is None && (node.ip_addresses.len() == 0
                <==> spec.load_balancer_ip is None) && (node.ip_addresses.len() > 0
                ==> spec.load_balancer_ip == Some(node.ip_addresses[node.ip_addresses.len() - 1]))
            &&& service.ingress is None
        }),
{
}

/// What is set on the status of the service is all the addresses, in their order.
pub proof fn lemma_status_holds_the_addresses(plan: PlanView, addresses: Seq<Seq<char>>)
    ensures
        ({
            let service = desired_status(plan, addresses);
            &&& service.metadata.name == Some(plan.name)
            &&& service.metadata.namespace == Some(plan.namespace)
            &&& service.metadata.uid is None
            &&& service.metadata.labels is None
            &&& service.metadata.annotations is None
            &&& service.metadata.owner_references is None
            &&& service.spec is None
            &&& service.ingress == Some(addresses)
        }),
{
}

/// Whether a patch goes to the object with the name in the namespace, under the name of the
/// controller.
pub open spec fn goes_to(target: PatchTargetView, namespace: Seq<char>, name: Seq<char>) -> bool {
    &&& target.namespace == namespace
    &&& target.name == name
    &&& target.field_manager == "surge.unrouted.uk"@
}

/// Each patch goes to its object, under the name of the controller. Fields of the service that
/// others own are taken over, and those of the volume claim and the deployment are not.
pub proof fn lemma_patches_go_to_their_objects(
    plan: PlanView,
    node: NodeView,
    addresses: Seq<Seq<char>>,
    ctx: DataView,
)
    ensures
        claim_request(plan, ctx) matches RequestView::PatchClaim { target, claim } && goes_to(
            target,
            plan.namespace,
            plan.name + "-tailscale-state"@,
        ) && !target.force && claim == desired_claim(plan, ctx),
        deployment_request(plan, ctx) matches RequestView::PatchDeployment { target, deployment }
            && goes_to(target, plan.namespace, plan.name + "-tailscale-proxy"@) && !target.force
            && deployment == desired_deployment(plan, ctx),
        service_request(plan, node) matches RequestView::PatchService { target, service }
            && goes_to(target, plan.namespace, plan.name) && target.force && service
            == desired_service(plan, node),
        status_request(plan, addresses) matches RequestView::PatchServiceStatus { target, service }
            && goes_to(target, plan.namespace, plan.name) && target.force && service
            == desired_status(plan, addresses),
{
}

/// The target of a patch is what it is made of, under the name of the controller.
pub proof fn lemma_target(namespace: Seq<char>, name: Seq<char>, force: bool)
    ensures
        goes_to(target_of(namespace, name, force), namespace, name),
        target_of(namespace, name, force).force == force,
{
}

} // verus!
