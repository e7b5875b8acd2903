//! What a service asks of the controller.

use crate::context::{Data, DataView};
use crate::error::{ReconcileError, ReconcileErrorView};
use crate::objects::{Service, ServiceSpecView, ServiceView};
use crate::string_map::{get_in, lookup};
use crate::text::opt_view;
use vstd::prelude::*;

verus! {

/// The label of a service that names the user of its node.
pub const USER_LABEL: &'static str = "surge.unrouted.uk/user";

/// The label of a service that gives the host name of its node.
pub const HOSTNAME_LABEL: &'static str = "surge.unrouted.uk/hostname";

/// The label of a service that gives the name by which the tailnet resolves its node.
pub const DNS_NAME_LABEL: &'static str = "surge.unrouted.uk/dnsname";

/// The annotation of a service that holds the key of its node.
pub const NODEKEY_ANNOTATION: &'static str = "surge.unrouted.uk/nodekey";

/// The annotation of a service that holds the id of its node.
pub const MACHINE_ID_ANNOTATION: &'static str = "surge.unrouted.uk/machine-id";

/// What a reconciliation makes of a service.
#[derive(Debug)]
pub struct Plan {
    /// The name of the service.
    pub name: String,
    /// The namespace of the service and of all that is made for it.
    pub namespace: String,
    pub uid: String,
    /// Where the proxy forwards to.
    pub cluster_ip: String,
    /// The user that the node belongs to.
    pub user: String,
    /// The host name of the node.
    pub hostname: String,
    /// The name by which the tailnet resolves the node.
    pub dns_name: String,
    /// The node key that the service is annotated with.
    pub nodekey: Option<String>,
}

/// The model of a [`Plan`].
#[verifier::ext_equal]
pub struct PlanView {
    pub name: Seq<char>,
    pub namespace: Seq<char>,
    pub uid: Seq<char>,
    pub cluster_ip: Seq<char>,
    pub user: Seq<char>,
    pub hostname: Seq<char>,
    pub dns_name: Seq<char>,
    pub nodekey: Option<Seq<char>>,
}

impl View for Plan {
    type V = PlanView;

    open spec fn view(&self) -> PlanView {
        PlanView {
            name: self.name@,
            namespace: self.namespace@,
            uid: self.uid@,
            cluster_ip: self.cluster_ip@,
            user: self.user@,
            hostname: self.hostname@,
            dns_name: self.dns_name@,
            nodekey: opt_view(self.nodekey),
        }
    }
}

/// The user that the node of the service belongs to.
pub open spec fn user_of(service: ServiceView, ctx: DataView) -> Option<Seq<char>> {
    match lookup(service.metadata.labels, USER_LABEL@) {
        Some(user) => Some(user),
        None => ctx.default_user,
    }
}

/// The host name of the node of the service, where the service is named `name`.
pub open spec fn hostname_of(service: ServiceView, name: Seq<char>) -> Seq<char> {
    match lookup(service.metadata.labels, HOSTNAME_LABEL@) {
        Some(hostname) => hostname,
        None => name,
    }
}

/// The name by which the tailnet resolves the node of the service, where the service is named
/// `name`.
pub open spec fn dns_name_of(service: ServiceView, name: Seq<char>) -> Seq<char> {
    match lookup(service.metadata.labels, DNS_NAME_LABEL@) {
        Some(dns_name) => dns_name,
        None => hostname_of(service, name),
    }
}

/// Whether the service is one that the controller takes care of.
pub open spec fn is_ours(spec: ServiceSpecView, ctx: DataView) -> bool {
    spec.load_balancer_class == Some(ctx.load_balancer_class)
}

/// What there is to do for the service. `Ok(None)` where the controller does not take care of it.
pub open spec fn plan_of(service: ServiceView, ctx: DataView) -> Result<
    Option<PlanView>,
    ReconcileErrorView,
> {
    match service.spec {
        None => Err(ReconcileErrorView::MissingSpec),
        Some(spec) => if !is_ours(spec, ctx) {
            Ok(None)
        } else {
            match (
                service.metadata.name,
                service.metadata.namespace,
                service.metadata.uid,
                spec.cluster_ip,
                user_of(service, ctx),
            ) {
                (None, _, _, _, _) => Err(ReconcileErrorView::MissingName),
                (_, None, _, _, _) => Err(ReconcileErrorView::MissingNamespace),
                (_, _, None, _, _) => Err(ReconcileErrorView::MissingUid),
                (_, _, _, None, _) => Err(ReconcileErrorView::MissingClusterIp),
                (_, _, _, _, None) => Err(ReconcileErrorView::MissingUser),
                (Some(name), Some(namespace), Some(uid), Some(cluster_ip), Some(user)) => Ok(
                    Some(
                        PlanView {
                            name,
                            namespace,
                            uid,
                            cluster_ip,
                            user,
                            hostname: hostname_of(service, name),
                            dns_name: dns_name_of(service, name),
                            nodekey: lookup(service.metadata.annotations, NODEKEY_ANNOTATION@),
                        },
                    ),
                ),
            }
        },
    }
}

/// The model of what [`plan`] returns.
pub open spec fn plan_view(r: Result<Option<Plan>, ReconcileError>) -> Result<
    Option<PlanView>,
    ReconcileErrorView,
> {
    match r {
        Ok(plan) => Ok(opt_view(plan)),
        Err(error) => Err(error@),
    }
}

/// The value, or an error where there is none.
fn need(value: &Option<String>, error: ReconcileError) -> (r: Result<String, ReconcileError>)
    ensures
        r is Ok <==> *value is Some,
        r matches Ok(text) ==> opt_view(*value) == Some(text@),
        r matches Err(e) ==> e == error,
{
    match value {
        Some(value) => Ok(value.clone()),
        None => Err(error),
    }
}

/// What there is to do for the service. `Ok(None)` where the controller does not take care of it.
pub fn plan(service: &Service, ctx: &Data) -> (r: Result<Option<Plan>, ReconcileError>)
    ensures
        plan_view(r) == plan_of(service@, ctx@),
{
    let spec = match &service.spec {
        Some(spec) => spec,
        None => return Err(ReconcileError::MissingSpec),
    };
    match &spec.load_balancer_class {
        Some(class) => if *class != ctx.load_balancer_class {
            return Ok(None);
        },
        None => return Ok(None),
    }
    let metadata = &service.metadata;
    let name = need(&metadata.name, ReconcileError::MissingName)?;
    let namespace = need(&metadata.namespace, ReconcileError::MissingNamespace)?;
    let uid = need(&metadata.uid, ReconcileError::MissingUid)?;
    let cluster_ip = need(&spec.cluster_ip, ReconcileError::MissingClusterIp)?;
    let user = match get_in(&metadata.labels, USER_LABEL) {
        Some(user) => user,
        None => need(&ctx.default_user, ReconcileError::MissingUser)?,
    };
    let hostname = match get_in(&metadata.labels, HOSTNAME_LABEL) {
        Some(hostname) => hostname,
        None => name.clone(),
    };
    let dns_name = match get_in(&metadata.labels, DNS_NAME_LABEL) {
        Some(dns_name) => dns_name,
        None => hostname.clone(),
    };
    let nodekey = get_in(&metadata.annotations, NODEKEY_ANNOTATION);
    Ok(Some(Plan { name, namespace, uid, cluster_ip, user, hostname, dns_name, nodekey }))
}

} // verus!
