//! What holds of the plan for a service, over the fields of the service and the configuration.

use crate::context::DataView;
use crate::error::ReconcileErrorView;
use crate::objects::{ObjectMetaView, ServiceSpecView, ServiceView};
use crate::plan::{plan_of, PlanView};
use vstd::prelude::*;

verus! {

/// Whether the map is there and has the value at the key.
pub open spec fn holds(
    map: Option<Map<Seq<char>, Seq<char>>>,
    key: Seq<char>,
    value: Seq<char>,
) -> bool {
    map matches Some(map) && map.contains_key(key) && map[key] == value
}

/// Whether the map is not there, or has no value at the key.
pub open spec fn lacks(map: Option<Map<Seq<char>, Seq<char>>>, key: Seq<char>) -> bool {
    map matches Some(map) ==> !map.contains_key(key)
}

/// The controller takes care of the services of the configured load balancer class, and leaves
/// every other service alone. A service without a spec is an error.
pub proof fn lemma_configured_class_decides(service: ServiceView, ctx: DataView)
    ensures
        plan_of(service, ctx) == Err::<Option<PlanView>, ReconcileErrorView>(
            ReconcileErrorView::MissingSpec,
        ) <==> service.spec is None,
        service.spec matches Some(spec) ==> (plan_of(service, ctx) == Ok::<
            Option<PlanView>,
            ReconcileErrorView,
        >(None) <==> spec.load_balancer_class != Some(ctx.load_balancer_class)),
{
}

/// Two controllers with different classes never take care of the same service.
pub proof fn lemma_classes_share_no_service(service: ServiceView, one: DataView, other: DataView)
    requires
        one.load_balancer_class != other.load_balancer_class,
    ensures
        !(plan_of(service, one) matches Ok(Some(_))) || !(plan_of(service, other) matches Ok(
            Some(_),
        )),
{
}

/// A service of the configured class is planned exactly where it has a name, a namespace, a uid and
/// a cluster IP, and a label or the configuration names a user. Otherwise the first of these that
/// is missing, in this order, is the error.
pub proof fn lemma_first_missing_field_is_the_error(
    service: ServiceView,
    spec: ServiceSpecView,
    ctx: DataView,
)
    requires
        service.spec == Some(spec),
        spec.load_balancer_class == Some(ctx.load_balancer_class),
    ensures
        ({
            let has_name = service.metadata.name is Some;
            let has_namespace = service.metadata.namespace is Some;
            let has_uid = service.metadata.uid is Some;
            let has_ip = spec.cluster_ip is Some;
            let has_user = ctx.default_user is Some || !lacks(
                service.metadata.labels,
                "surge.unrouted.uk/user"@,
            );
            let error = plan_of(service, ctx)->Err_0;
            &&& plan_of(service, ctx) is Err <==> !(has_name && has_namespace && has_uid && has_ip
                && has_user)
            &&& plan_of(service, ctx) matches Ok(plan) ==> plan is Some
            &&& !has_name ==> error == ReconcileErrorView::MissingName
            &&& has_name && !has_namespace ==> error == ReconcileErrorView::MissingNamespace
            &&& has_name && has_namespace && !has_uid ==> error == ReconcileErrorView::MissingUid
            &&& has_name && has_namespace && has_uid && !has_ip ==> error
                == ReconcileErrorView::MissingClusterIp
            &&& has_name && has_namespace && has_uid && has_ip && !has_user ==> error
                == ReconcileErrorView::MissingUser
        }),
{
}

/// A plan keeps what identifies the service, and where its traffic goes.
pub proof fn lemma_plan_keeps_the_service(service: ServiceView, plan: PlanView, ctx: DataView)
    requires
        plan_of(service, ctx) == Ok::<Option<PlanView>, ReconcileErrorView>(Some(plan)),
    ensures
        service.metadata.name == Some(plan.name),
        service.metadata.namespace == Some(plan.namespace),
        service.metadata.uid == Some(plan.uid),
        service.spec matches Some(spec) && spec.cluster_ip == Some(plan.cluster_ip),
{
}

/// The user label names the user of the node, whatever the other labels and the default user are.
/// Without it, the node belongs to the default user.
pub proof fn lemma_user_label_names_the_user(
    service: ServiceView,
    plan: PlanView,
    ctx: DataView,
    user: Seq<char>,
)
    requires
        plan_of(service, ctx) == Ok::<Option<PlanView>, ReconcileErrorView>(Some(plan)),
    ensures
        holds(service.metadata.labels, "surge.unrouted.uk/user"@, user) ==> plan.user == user,
        lacks(service.metadata.labels, "surge.unrouted.uk/user"@) ==> ctx.default_user == Some(
            plan.user,
        ),
{
}

/// The hostname label gives the host name of the node, whatever the other labels are. Without it,
/// the host name is the name of the service.
pub proof fn lemma_hostname_label_gives_the_hostname(
    service: ServiceView,
    plan: PlanView,
    ctx: DataView,
    hostname: Seq<char>,
)
    requires
        plan_of(service, ctx) == Ok::<Option<PlanView>, ReconcileErrorView>(Some(plan)),
    ensures
        holds(service.metadata.labels, "surge.unrouted.uk/hostname"@, hostname) ==> plan.hostname
            == hostname,
        lacks(service.metadata.labels, "surge.unrouted.uk/hostname"@) ==> Some(plan.hostname)
            == service.metadata.name,
{
}

/// The dnsname label gives the name of the node on the tailnet, whatever the other labels are.
/// Without it, that name is the host name.
pub proof fn lemma_dnsname_label_gives_the_dns_name(
    service: ServiceView,
    plan: PlanView,
    ctx: DataView,
    dns_name: Seq<char>,
)
    requires
        plan_of(service, ctx) == Ok::<Option<PlanView>, ReconcileErrorView>(Some(plan)),
    ensures
        holds(service.metadata.labels, "surge.unrouted.uk/dnsname"@, dns_name) ==> plan.dns_name
            == dns_name,
        lacks(service.metadata.labels, "surge.unrouted.uk/dnsname"@) ==> plan.dns_name
            == plan.hostname,
{
}

/// The nodekey annotation is the node key that the service knows, and without it the service knows
/// none.
pub proof fn lemma_nodekey_annotation_is_known(
    service: ServiceView,
    plan: PlanView,
    ctx: DataView,
    nodekey: Seq<char>,
)
    requires
        plan_of(service, ctx) == Ok::<Option<PlanView>, ReconcileErrorView>(Some(plan)),
    ensures
        holds(service.metadata.annotations, "surge.unrouted.uk/nodekey"@, nodekey) <==> plan.nodekey
            == Some(nodekey),
        lacks(service.metadata.annotations, "surge.unrouted.uk/nodekey"@) <==> plan.nodekey is None,
{
}

/// A label or an annotation of any other key changes no plan.
pub proof fn lemma_other_keys_do_not_matter(
    service: ServiceView,
    labels: Map<Seq<char>, Seq<char>>,
    annotations: Map<Seq<char>, Seq<char>>,
    key: Seq<char>,
    value: Seq<char>,
    ctx: DataView,
)
    requires
        service.metadata.labels == Some(labels),
        service.metadata.annotations == Some(annotations),
        key != "surge.unrouted.uk/user"@,
        key != "surge.unrouted.uk/hostname"@,
        key != "surge.unrouted.uk/dnsname"@,
        key != "surge.unrouted.uk/nodekey"@,
    ensures
        ({
            let other = ServiceView {
                metadata: ObjectMetaView {
                    labels: Some(labels.insert(key, value)),
                    annotations: Some(annotations.insert(key, value)),
                    ..service.metadata
                },
                ..service
            };
            plan_of(other, ctx) == plan_of(service, ctx)
        }),
{
    let other = labels.insert(key, value);
    let noted = annotations.insert(key, value);
    assert(other.contains_key("surge.unrouted.uk/user"@) == labels.contains_key(
        "surge.unrouted.uk/user"@,
    ));
    assert(other.contains_key("surge.unrouted.uk/hostname"@) == labels.contains_key(
        "surge.unrouted.uk/hostname"@,
    ));
    assert(other.contains_key("surge.unrouted.uk/dnsname"@) == labels.contains_key(
        "surge.unrouted.uk/dnsname"@,
    ));
    assert(noted.contains_key("surge.unrouted.uk/nodekey"@) == annotations.contains_key(
        "surge.unrouted.uk/nodekey"@,
    ));
}

} // verus!
