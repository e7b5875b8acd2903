//! Finding the node of a service in the control plane, and registering it where it is new.

use crate::api::{
    find_node, get_node_by_nodekey, list_machines, list_request, register_node, register_request,
    Node, NodeView,
};
use crate::context::{Data, DataView};
use crate::error::{ReconcileError, ReconcileErrorView};
use crate::local_status::{identify, identity, Identity, IdentityView};
use crate::plan::{Plan, PlanView};
use crate::pod_watch::{pod_watch, watch_of};
use crate::request::{Reply, ReplyView, Request, RequestView};
use vstd::prelude::*;

verus! {

/// How far the search for the node of a service has come.
#[derive(Debug)]
pub enum Registration {
    /// The list of machines is to hold the node key that the service is annotated with.
    FindAnnotated(String),
    /// A pod is to run, and to report its status.
    AwaitStatus,
    /// The list of machines may hold the key of the node, which needs a login.
    FindLogin(String),
    /// The list of machines is to hold the key of the node, which runs.
    FindRunning(String),
    /// The control plane is to register the node.
    Register,
}

/// The model of a [`Registration`].
#[verifier::ext_equal]
pub enum RegistrationView {
    FindAnnotated(Seq<char>),
    AwaitStatus,
    FindLogin(Seq<char>),
    FindRunning(Seq<char>),
    Register,
}

impl View for Registration {
    type V = RegistrationView;

    open spec fn view(&self) -> RegistrationView {
        match self {
            Registration::FindAnnotated(value) => RegistrationView::FindAnnotated(value@),
            Registration::AwaitStatus => RegistrationView::AwaitStatus,
            Registration::FindLogin(value) => RegistrationView::FindLogin(value@),
            Registration::FindRunning(value) => RegistrationView::FindRunning(value@),
            Registration::Register => RegistrationView::Register,
        }
    }
}

/// What follows a reply while the node is not known yet.
#[derive(Debug)]
pub enum RegistrationStep {
    /// Make the request, and go on from there with its reply.
    Ask(Registration, Request),
    /// This is the node.
    Found(Node),
    Fail(ReconcileError),
}

/// The model of a [`RegistrationStep`].
#[verifier::ext_equal]
pub enum RegistrationStepView {
    Ask(RegistrationView, RequestView),
    Found(NodeView),
    Fail(ReconcileErrorView),
}

impl View for RegistrationStep {
    type V = RegistrationStepView;

    open spec fn view(&self) -> RegistrationStepView {
        match self {
            RegistrationStep::Ask(first, second) => RegistrationStepView::Ask(first@, second@),
            RegistrationStep::Found(value) => RegistrationStepView::Found(value@),
            RegistrationStep::Fail(value) => RegistrationStepView::Fail(value@),
        }
    }
}

/// How the registration begins: with the node key that the service is annotated with, and else
/// with the node that the pod of the service runs.
pub open spec fn first_registration_step(plan: PlanView, ctx: DataView) -> (
    RegistrationView,
    RequestView,
) {
    match plan.nodekey {
        Some(nodekey) => (
            RegistrationView::FindAnnotated(nodekey),
            RequestView::ListMachines(list_request(ctx.base_url)),
        ),
        None => (
            RegistrationView::AwaitStatus,
            RequestView::AwaitStatus(watch_of(plan.namespace, plan.name)),
        ),
    }
}

/// Whether the reply is one to the request that was made last.
pub open spec fn answers_registration(registration: RegistrationView, reply: ReplyView) -> bool {
    match (registration, reply) {
        (_, ReplyView::Failed) => true,
        (RegistrationView::AwaitStatus, ReplyView::Timeout) => true,
        (RegistrationView::AwaitStatus, ReplyView::Status(_)) => true,
        (RegistrationView::FindAnnotated(_), ReplyView::Machines(_)) => true,
        (RegistrationView::FindLogin(_), ReplyView::Machines(_)) => true,
        (RegistrationView::FindRunning(_), ReplyView::Machines(_)) => true,
        (RegistrationView::Register, ReplyView::Machine(_)) => true,
        _ => false,
    }
}

/// What follows a reply while the node is not known yet. `None` where the reply is not one to the
/// request that was made, or holds a node key without a colon.
pub open spec fn next_registration_step(
    registration: RegistrationView,
    reply: ReplyView,
    plan: PlanView,
    ctx: DataView,
) -> Option<RegistrationStepView> {
    match (registration, reply) {
        (_, ReplyView::Failed) => Some(
            RegistrationStepView::Fail(ReconcileErrorView::RequestFailed),
        ),
        (RegistrationView::FindAnnotated(nodekey), ReplyView::Machines(machines)) => Some(
            match find_node(machines, nodekey) {
                Some(node) => RegistrationStepView::Found(node),
                None => RegistrationStepView::Fail(
                    ReconcileErrorView::AnnotatedNodeMissing(nodekey),
                ),
            },
        ),
        (RegistrationView::AwaitStatus, ReplyView::Timeout) => Some(
            RegistrationStepView::Fail(ReconcileErrorView::Timeout),
        ),
        (RegistrationView::AwaitStatus, ReplyView::Status(status)) => match identity(status) {
            None => None,
            Some(Err(error)) => Some(RegistrationStepView::Fail(error)),
            Some(Ok(IdentityView::NeedsLogin(nodekey))) => Some(
                RegistrationStepView::Ask(
                    RegistrationView::FindLogin(nodekey),
                    RequestView::ListMachines(list_request(ctx.base_url)),
                ),
            ),
            Some(Ok(IdentityView::Running(nodekey))) => Some(
                RegistrationStepView::Ask(
                    RegistrationView::FindRunning(nodekey),
                    RequestView::ListMachines(list_request(ctx.base_url)),
                ),
            ),
        },
        (RegistrationView::FindLogin(nodekey), ReplyView::Machines(machines)) => Some(
            match find_node(machines, nodekey) {
                Some(node) => RegistrationStepView::Found(node),
                None => RegistrationStepView::Ask(
                    RegistrationView::Register,
                    RequestView::RegisterNode(register_request(ctx.base_url, nodekey, plan.user)),
                ),
            },
        ),
        (RegistrationView::FindRunning(nodekey), ReplyView::Machines(machines)) => Some(
            match find_node(machines, nodekey) {
                Some(node) => RegistrationStepView::Found(node),
                None => RegistrationStepView::Fail(ReconcileErrorView::RunningNodeMissing(nodekey)),
            },
        ),
        (RegistrationView::Register, ReplyView::Machine(node)) => Some(
            RegistrationStepView::Found(node),
        ),
        _ => None,
    }
}

/// Begins to find the node of the service, or to register it.
pub fn ensure_node_registered(plan: &Plan, ctx: &Data) -> (r: (Registration, Request))
    ensures
        (r.0@, r.1@) == first_registration_step(plan@, ctx@),
{
    match &plan.nodekey {
        Some(nodekey) => (
            Registration::FindAnnotated(nodekey.clone()),
            Request::ListMachines(list_machines(ctx.base_url.as_str())),
        ),
        None => (
            Registration::AwaitStatus,
            Request::AwaitStatus(pod_watch(plan.namespace.as_str(), plan.name.as_str())),
        ),
    }
}

/// Whether the reply is one to the request that was made last.
pub fn is_answer_to_registration(registration: &Registration, reply: &Reply) -> (r: bool)
    ensures
        r == answers_registration(registration@, reply@),
{
    match (registration, reply) {
        (_, Reply::Failed) => true,
        (Registration::AwaitStatus, Reply::Timeout) => true,
        (Registration::AwaitStatus, Reply::Status(_)) => true,
        (Registration::FindAnnotated(_), Reply::Machines(_)) => true,
        (Registration::FindLogin(_), Reply::Machines(_)) => true,
        (Registration::FindRunning(_), Reply::Machines(_)) => true,
        (Registration::Register, Reply::Machine(_)) => true,
        _ => false,
    }
}

/// Goes on with what [`ensure_node_registered`] began, on the reply to the request that was made.
/// A node key in it has a colon.
pub fn continue_registration(
    registration: Registration,
    reply: Reply,
    plan: &Plan,
    ctx: &Data,
) -> (r: RegistrationStep)
    requires
        next_registration_step(registration@, reply@, plan@, ctx@) is Some,
    ensures
        next_registration_step(registration@, reply@, plan@, ctx@) == Some(r@),
{
    let base_url = ctx.base_url.as_str();
    match (registration, reply) {
        (_, Reply::Failed) => RegistrationStep::Fail(ReconcileError::RequestFailed),
        (Registration::FindAnnotated(nodekey), Reply::Machines(machines)) => {
            match get_node_by_nodekey(machines, nodekey.as_str()) {
                Some(node) => RegistrationStep::Found(node),
                None => RegistrationStep::Fail(ReconcileError::AnnotatedNodeMissing(nodekey)),
            }
        },
        (Registration::AwaitStatus, Reply::Timeout) => RegistrationStep::Fail(
            ReconcileError::Timeout,
        ),
        (Registration::AwaitStatus, Reply::Status(status)) => match identify(&status).unwrap() {
            Err(error) => RegistrationStep::Fail(error),
            Ok(Identity::NeedsLogin(nodekey)) => RegistrationStep::Ask(
                Registration::FindLogin(nodekey),
                Request::ListMachines(list_machines(base_url)),
            ),
            Ok(Identity::Running(nodekey)) => RegistrationStep::Ask(
                Registration::FindRunning(nodekey),
                Request::ListMachines(list_machines(base_url)),
            ),
        },
        (Registration::FindLogin(nodekey), Reply::Machines(machines)) => {
            match get_node_by_nodekey(machines, nodekey.as_str()) {
                Some(node) => RegistrationStep::Found(node),
                None => RegistrationStep::Ask(
                    Registration::Register,
                    Request::RegisterNode(
                        register_node(base_url, nodekey.as_str(), plan.user.as_str()),
                    ),
                ),
            }
        },
        (Registration::FindRunning(nodekey), Reply::Machines(machines)) => {
            match get_node_by_nodekey(machines, nodekey.as_str()) {
                Some(node) => RegistrationStep::Found(node),
                None => RegistrationStep::Fail(ReconcileError::RunningNodeMissing(nodekey)),
            }
        },
        (Registration::Register, Reply::Machine(node)) => RegistrationStep::Found(node),
        _ => unreached(),
    }
}

} // verus!
