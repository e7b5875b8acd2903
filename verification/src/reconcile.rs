//! Reconciling a service.

use crate::api::{
    change_user, change_user_request, remove_node, remove_request, rename, rename_request,
    HttpRequest, HttpRequestView, Node, NodeView,
};
use crate::context::{Data, DataView};
use crate::error::{ReconcileError, ReconcileErrorView};
use crate::local_status::{identify, identity};
use crate::objects::{Service, ServiceView};
use crate::plan::{plan, plan_of, Plan, PlanView, MACHINE_ID_ANNOTATION};
use crate::registration::{
    answers_registration, continue_registration, ensure_node_registered, first_registration_step,
    is_answer_to_registration, next_registration_step, Registration, RegistrationStep,
    RegistrationStepView, RegistrationView,
};
use crate::request::{target, target_of, Reply, ReplyView, Request, RequestView};
use crate::resources::{
    annotated_service, claim_name, deployment, deployment_name, desired_claim, desired_deployment,
    desired_service, desired_status, persistent_volume_claim, persistent_volume_claim_name,
    proxy_deployment_name, service_status,
};
use crate::text::views;
use vstd::prelude::*;

verus! {

/// The finalizer that keeps a deleted service until its node is removed.
pub const FINALIZER: &'static str = "surge.unrouted.uk/node-cleanup";

/// After how many seconds a service is reconciled again, though it has not changed.
pub const REQUEUE_SECS: u64 = 300;

/// What to do with a service after its reconciliation.
#[derive(Debug, Clone, Copy, PartialEq, Eq, Structural)]
pub enum Action {
    /// Reconcile it again after so many seconds.
    Requeue(u64),
    /// Leave it alone until it changes.
    AwaitChange,
}

/// How far a reconciliation has come: the request that it has made last.
#[derive(Debug)]
pub enum Progress {
    ClaimSent,
    DeploymentSent,
    Registering(Registration),
    /// The node, with its name before the request.
    NameSent(Node),
    /// The node, with its user before the request.
    UserSent(Node),
    /// The addresses of the node.
    ServiceSent(Vec<String>),
    StatusSent,
}

/// The model of a [`Progress`].
#[verifier::ext_equal]
pub enum ProgressView {
    ClaimSent,
    DeploymentSent,
    Registering(RegistrationView),
    NameSent(NodeView),
    UserSent(NodeView),
    ServiceSent(Seq<Seq<char>>),
    StatusSent,
}

impl View for Progress {
    type V = ProgressView;

    open spec fn view(&self) -> ProgressView {
        match self {
            Progress::ClaimSent => ProgressView::ClaimSent,
            Progress::DeploymentSent => ProgressView::DeploymentSent,
            Progress::Registering(value) => ProgressView::Registering(value@),
            Progress::NameSent(value) => ProgressView::NameSent(value@),
            Progress::UserSent(value) => ProgressView::UserSent(value@),
            Progress::ServiceSent(value) => ProgressView::ServiceSent(views(value@)),
            Progress::StatusSent => ProgressView::StatusSent,
        }
    }
}

/// A reconciliation that waits for a reply.
#[derive(Debug)]
pub struct Reconciliation {
    pub plan: Plan,
    pub progress: Progress,
}

/// The model of a [`Reconciliation`].
#[verifier::ext_equal]
pub struct ReconciliationView {
    pub plan: PlanView,
    pub progress: ProgressView,
}

impl View for Reconciliation {
    type V = ReconciliationView;

    open spec fn view(&self) -> ReconciliationView {
        ReconciliationView {
            plan: self.plan@,
            progress: self.progress@,
        }
    }
}

/// What a reconciliation does next.
#[derive(Debug)]
pub enum Step {
    /// Make the request, and go on from there with its reply.
    Ask(Reconciliation, Request),
    Done(Action),
    Fail(ReconcileError),
}

/// The model of a [`Step`].
#[verifier::ext_equal]
pub enum StepView {
    Ask(ReconciliationView, RequestView),
    Done(Action),
    Fail(ReconcileErrorView),
}

impl View for Step {
    type V = StepView;

    open spec fn view(&self) -> StepView {
        match self {
            Step::Ask(first, second) => StepView::Ask(first@, second@),
            Step::Done(value) => StepView::Done(*value),
            Step::Fail(value) => StepView::Fail(value@),
        }
    }
}

/// Why a reconciliation cannot go on from a reply.
#[derive(Debug, Clone, Copy, PartialEq, Eq, Structural)]
pub enum Refusal {
    /// The reply is not one to the request that was made.
    UnfittingReply,
    /// The reply is the status of a node with a node key that has no colon.
    NoNodeKey,
}

/// What there is to do when a service is deleted.
#[derive(Debug)]
pub enum Cleanup {
    /// Remove its node from the control plane.
    Remove(HttpRequest),
    /// Nothing, but a node of the service may stay behind in the control plane.
    StaleNode,
    Nothing,
}

/// The model of a [`Cleanup`].
#[verifier::ext_equal]
pub enum CleanupView {
    Remove(HttpRequestView),
    StaleNode,
    Nothing,
}

impl View for Cleanup {
    type V = CleanupView;

    open spec fn view(&self) -> CleanupView {
        match self {
            Cleanup::Remove(value) => CleanupView::Remove(value@),
            Cleanup::StaleNode => CleanupView::StaleNode,
            Cleanup::Nothing => CleanupView::Nothing,
        }
    }
}

/// The request that patches the volume claim.
pub open spec fn claim_request(plan: PlanView, ctx: DataView) -> RequestView {
    RequestView::PatchClaim {
        target: target_of(plan.namespace, claim_name(plan.name), false),
        claim: desired_claim(plan, ctx),
    }
}

/// The request that patches the deployment.
pub open spec fn deployment_request(plan: PlanView, ctx: DataView) -> RequestView {
    RequestView::PatchDeployment {
        target: target_of(plan.namespace, deployment_name(plan.name), false),
        deployment: desired_deployment(plan, ctx),
    }
}

/// The request that patches the service.
pub open spec fn service_request(plan: PlanView, node: NodeView) -> RequestView {
    RequestView::PatchService {
        target: target_of(plan.namespace, plan.name, true),
        service: desired_service(plan, node),
    }
}

/// The request that patches the status of the service.
pub open spec fn status_request(plan: PlanView, addresses: Seq<Seq<char>>) -> RequestView {
    RequestView::PatchServiceStatus {
        target: target_of(plan.namespace, plan.name, true),
        service: desired_status(plan, addresses),
    }
}

/// A request, after which the reconciliation stands at `progress`.
pub open spec fn ask(plan: PlanView, progress: ProgressView, request: RequestView) -> StepView {
    StepView::Ask(ReconciliationView { plan, progress }, request)
}

/// How a reconciliation of the service begins.
pub open spec fn first_step(service: ServiceView, ctx: DataView) -> StepView {
    match plan_of(service, ctx) {
        Err(error) => StepView::Fail(error),
        Ok(None) => StepView::Done(Action::Requeue(REQUEUE_SECS)),
        Ok(Some(plan)) => ask(plan, ProgressView::ClaimSent, claim_request(plan, ctx)),
    }
}

/// What follows when the node has the name and the user it is to have.
pub open spec fn annotate_step(plan: PlanView, node: NodeView) -> StepView {
    ask(plan, ProgressView::ServiceSent(node.ip_addresses), service_request(plan, node))
}

/// What follows when the node has the name it is to have.
pub open spec fn user_step(plan: PlanView, node: NodeView, ctx: DataView) -> StepView {
    if node.user.name != plan.user {
        ask(
            plan,
            ProgressView::UserSent(node),
            RequestView::ChangeUser(change_user_request(ctx.base_url, node.id, plan.user)),
        )
    } else {
        annotate_step(plan, node)
    }
}

/// What follows when the node is known.
pub open spec fn name_step(plan: PlanView, node: NodeView, ctx: DataView) -> StepView {
    if node.name != plan.dns_name {
        ask(
            plan,
            ProgressView::NameSent(node),
            RequestView::RenameNode(rename_request(ctx.base_url, node.id, plan.dns_name)),
        )
    } else {
        user_step(plan, node, ctx)
    }
}

/// Whether the reply is one to the request that was made last.
pub open spec fn answers(progress: ProgressView, reply: ReplyView) -> bool {
    match (progress, reply) {
        (_, ReplyView::Failed) => true,
        (ProgressView::ClaimSent, ReplyView::Patched) => true,
        (ProgressView::DeploymentSent, ReplyView::Patched) => true,
        (ProgressView::Registering(registration), reply) => answers_registration(
            registration,
            reply,
        ),
        (ProgressView::NameSent(_), ReplyView::Machine(_)) => true,
        (ProgressView::UserSent(_), ReplyView::Machine(_)) => true,
        (ProgressView::ServiceSent(_), ReplyView::Patched) => true,
        (ProgressView::StatusSent, ReplyView::Patched) => true,
        _ => false,
    }
}

/// Whether the reply is the status of a node with a node key that has no colon.
pub open spec fn lacks_nodekey(reply: ReplyView) -> bool {
    reply matches ReplyView::Status(status) && identity(status) is None
}

/// What follows a reply. `None` where the reply is not one to the request that was made, or holds
/// a node key without a colon.
pub open spec fn next_step(
    current: ReconciliationView,
    reply: ReplyView,
    ctx: DataView,
) -> Option<StepView> {
    let plan = current.plan;
    match (current.progress, reply) {
        (_, ReplyView::Failed) => Some(StepView::Fail(ReconcileErrorView::RequestFailed)),
        (ProgressView::ClaimSent, ReplyView::Patched) => Some(
            ask(plan, ProgressView::DeploymentSent, deployment_request(plan, ctx)),
        ),
        (ProgressView::DeploymentSent, ReplyView::Patched) => {
            let (registration, request) = first_registration_step(plan, ctx);
            Some(ask(plan, ProgressView::Registering(registration), request))
        },
        (ProgressView::Registering(registration), reply) => match next_registration_step(
            registration,
            reply,
            plan,
            ctx,
        ) {
            None => None,
            Some(RegistrationStepView::Ask(registration, request)) => Some(
                ask(plan, ProgressView::Registering(registration), request),
            ),
            Some(RegistrationStepView::Found(node)) => Some(name_step(plan, node, ctx)),
            Some(RegistrationStepView::Fail(error)) => Some(StepView::Fail(error)),
        },
        (ProgressView::NameSent(node), ReplyView::Machine(_)) => Some(user_step(plan, node, ctx)),
        (ProgressView::UserSent(node), ReplyView::Machine(_)) => Some(annotate_step(plan, node)),
        (ProgressView::ServiceSent(addresses), ReplyView::Patched) => Some(
            ask(plan, ProgressView::StatusSent, status_request(plan, addresses)),
        ),
        (ProgressView::StatusSent, ReplyView::Patched) => Some(
            StepView::Done(Action::Requeue(REQUEUE_SECS)),
        ),
        _ => None,
    }
}

/// Begins to reconcile the service.
pub fn apply(service: &Service, ctx: &Data) -> (r: Step)
    ensures
        r@ == first_step(service@, ctx@),
{
    match plan(service, ctx) {
        Err(error) => Step::Fail(error),
        Ok(None) => Step::Done(Action::Requeue(REQUEUE_SECS)),
        Ok(Some(plan)) => {
            let claim = persistent_volume_claim(&plan, ctx);
            let name = persistent_volume_claim_name(plan.name.as_str());
            let request = Request::PatchClaim {
                target: target(plan.namespace.as_str(), name.as_str(), false),
                claim,
            };
            Step::Ask(Reconciliation { plan, progress: Progress::ClaimSent }, request)
        },
    }
}

fn annotate(plan: Plan, node: Node) -> (r: Step)
    ensures
        r@ == annotate_step(plan@, node@),
{
    let request = Request::PatchService {
        target: target(plan.namespace.as_str(), plan.name.as_str(), true),
        service: annotated_service(&plan, &node),
    };
    Step::Ask(
        Reconciliation { plan, progress: Progress::ServiceSent(node.ip_addresses) },
        request,
    )
}

fn settle_user(plan: Plan, node: Node, ctx: &Data) -> (r: Step)
    ensures
        r@ == user_step(plan@, node@, ctx@),
{
    if node.user.name != plan.user {
        let request = Request::ChangeUser(
            change_user(ctx.base_url.as_str(), node.id.as_str(), plan.user.as_str()),
        );
        Step::Ask(Reconciliation { plan, progress: Progress::UserSent(node) }, request)
    } else {
        annotate(plan, node)
    }
}

fn settle_name(plan: Plan, node: Node, ctx: &Data) -> (r: Step)
    ensures
        r@ == name_step(plan@, node@, ctx@),
{
    if node.name != plan.dns_name {
        let request = Request::RenameNode(
            rename(ctx.base_url.as_str(), node.id.as_str(), plan.dns_name.as_str()),
        );
        Step::Ask(Reconciliation { plan, progress: Progress::NameSent(node) }, request)
    } else {
        settle_user(plan, node, ctx)
    }
}

/// Goes on with what [`apply`] began, on the reply to the last request. A node key in it has a
/// colon. [`try_advance`] takes any reply.
pub fn advance(current: Reconciliation, reply: Reply, ctx: &Data) -> (r: Step)
    requires
        next_step(current@, reply@, ctx@) is Some,
    ensures
        next_step(current@, reply@, ctx@) == Some(r@),
{
    let plan = current.plan;
    match (current.progress, reply) {
        (_, Reply::Failed) => Step::Fail(ReconcileError::RequestFailed),
        (Progress::ClaimSent, Reply::Patched) => {
            let name = proxy_deployment_name(plan.name.as_str());
            let request = Request::PatchDeployment {
                target: target(plan.namespace.as_str(), name.as_str(), false),
                deployment: deployment(&plan, ctx),
            };
            Step::Ask(Reconciliation { plan, progress: Progress::DeploymentSent }, request)
        },
        (Progress::DeploymentSent, Reply::Patched) => {
            let (registration, request) = ensure_node_registered(&plan, ctx);
            Step::Ask(
                Reconciliation { plan, progress: Progress::Registering(registration) },
                request,
            )
        },
        (Progress::Registering(registration), reply) => match continue_registration(
            registration,
            reply,
            &plan,
            ctx,
        ) {
            RegistrationStep::Ask(registration, request) => Step::Ask(
                Reconciliation { plan, progress: Progress::Registering(registration) },
                request,
            ),
            RegistrationStep::Found(node) => settle_name(plan, node, ctx),
            RegistrationStep::Fail(error) => Step::Fail(error),
        },
        (Progress::NameSent(node), Reply::Machine(_)) => settle_user(plan, node, ctx),
        (Progress::UserSent(node), Reply::Machine(_)) => annotate(plan, node),
        (Progress::ServiceSent(addresses), Reply::Patched) => {
            let request = Request::PatchServiceStatus {
                target: target(plan.namespace.as_str(), plan.name.as_str(), true),
                service: service_status(&plan, addresses),
            };
            Step::Ask(Reconciliation { plan, progress: Progress::StatusSent }, request)
        },
        (Progress::StatusSent, Reply::Patched) => Step::Done(Action::Requeue(REQUEUE_SECS)),
        _ => unreached(),
    }
}

fn is_answer(progress: &Progress, reply: &Reply) -> (r: bool)
    ensures
        r == answers(progress@, reply@),
{
    match (progress, reply) {
        (_, Reply::Failed) => true,
        (Progress::ClaimSent, Reply::Patched) => true,
        (Progress::DeploymentSent, Reply::Patched) => true,
        (Progress::Registering(registration), reply) => is_answer_to_registration(
            registration,
            reply,
        ),
        (Progress::NameSent(_), Reply::Machine(_)) => true,
        (Progress::UserSent(_), Reply::Machine(_)) => true,
        (Progress::ServiceSent(_), Reply::Patched) => true,
        (Progress::StatusSent, Reply::Patched) => true,
        _ => false,
    }
}

/// Goes on as [`advance`] does where the reply allows it, and else says why it does not. No
/// request is made then.
pub fn try_advance(current: Reconciliation, reply: Reply, ctx: &Data) -> (r: Result<Step, Refusal>)
    ensures
        match r {
            Ok(step) => next_step(current@, reply@, ctx@) == Some(step@),
            Err(_) => next_step(current@, reply@, ctx@) is None,
        },
        r == Err::<Step, Refusal>(Refusal::UnfittingReply) <==> !answers(current@.progress, reply@),
        r == Err::<Step, Refusal>(Refusal::NoNodeKey) <==> answers(current@.progress, reply@)
            && lacks_nodekey(reply@),
{
    if !is_answer(&current.progress, &reply) {
        return Err(Refusal::UnfittingReply);
    }
    if let Reply::Status(status) = &reply {
        if identify(status).is_none() {
            return Err(Refusal::NoNodeKey);
        }
    }
    Ok(advance(current, reply, ctx))
}

/// What there is to do when the service is deleted.
pub open spec fn cleanup_of(service: ServiceView, ctx: DataView) -> CleanupView {
    match service.metadata.annotations {
        None => CleanupView::Nothing,
        Some(annotations) => if annotations.contains_key(MACHINE_ID_ANNOTATION@) {
            CleanupView::Remove(remove_request(ctx.base_url, annotations[MACHINE_ID_ANNOTATION@]))
        } else {
            CleanupView::StaleNode
        },
    }
}

/// What there is to do when the service is deleted. [`conclude_cleanup`] says what comes of it.
pub fn cleanup(service: &Service, ctx: &Data) -> (r: Cleanup)
    ensures
        r@ == cleanup_of(service@, ctx@),
{
    match &service.metadata.annotations {
        None => Cleanup::Nothing,
        Some(annotations) => match annotations.get(MACHINE_ID_ANNOTATION) {
            Some(id) => Cleanup::Remove(remove_node(ctx.base_url.as_str(), id.as_str())),
            None => Cleanup::StaleNode,
        },
    }
}

/// What comes of a cleanup, where `removed` says whether the removal, if there was one to be made,
/// has succeeded. A removal that failed is an error, so that the finalizer keeps the service and
/// the cleanup is tried again.
pub open spec fn cleanup_result(cleanup: CleanupView, removed: bool) -> Result<
    Action,
    ReconcileErrorView,
> {
    if cleanup is Remove && !removed {
        Err(ReconcileErrorView::RequestFailed)
    } else {
        Ok(Action::AwaitChange)
    }
}

/// What comes of a cleanup, where `removed` says whether the removal, if there was one to be made,
/// has succeeded. Otherwise `removed` does not matter.
pub fn conclude_cleanup(cleanup: &Cleanup, removed: bool) -> (r: Result<Action, ReconcileError>)
    ensures
        match r {
            Ok(action) => cleanup_result(cleanup@, removed) == Ok::<Action, ReconcileErrorView>(
                action,
            ),
            Err(error) => cleanup_result(cleanup@, removed) == Err::<Action, ReconcileErrorView>(
                error@,
            ),
        },
{
    match cleanup {
        Cleanup::Remove(_) => if removed {
            Ok(Action::AwaitChange)
        } else {
            Err(ReconcileError::RequestFailed)
        },
        _ => Ok(Action::AwaitChange),
    }
}

/// What to do with a service after its reconciliation has failed.
pub fn error_policy() -> (r: Action)
    ensures
        r == Action::Requeue(1),
{
    Action::Requeue(1)
}

} // verus!
