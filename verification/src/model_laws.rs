//! What the models of values hold.

use crate::api::{HttpRequest, Node, Parameter, User};
use crate::context::{Data, Environment, Header, Startup, Var, VarView};
use crate::error::{ReconcileError, ReconcileErrorView};
use crate::local_status::{
    identity_view, segments_view, Identity, IdentityView, LocalStatus, LocalStatusSelf,
};
use crate::objects::{
    Container, Deployment, DeploymentSpec, EnvVar, ObjectMeta, OwnerReference,
    PersistentVolumeClaim, PersistentVolumeClaimSpec, PodSpec, PodTemplateSpec, SecurityContext,
    Service, ServiceSpec, Volume, VolumeMount,
};
use crate::plan::{plan_view, Plan, PlanView};
use crate::pod_watch::{
    Exec, Pod, PodStatus, PodWatch, WatchEvent, WatchEventView, WatchStep, WatchStepView,
};
use crate::reconcile::{
    Cleanup, CleanupView, Progress, ProgressView, Reconciliation, Step, StepView,
};
use crate::registration::{Registration, RegistrationStep, RegistrationStepView, RegistrationView};
use crate::request::{PatchTarget, Reply, ReplyView, Request, RequestView};
use crate::text::{opt_view, opt_views, views};
use vstd::prelude::*;

verus! {

/// The models of the Kubernetes objects hold what the values hold, each in its place.
pub proof fn lemma_object_models(
    owner: OwnerReference,
    metadata: ObjectMeta,
    claim: PersistentVolumeClaim,
    claim_spec: PersistentVolumeClaimSpec,
    deployment: Deployment,
    deployment_spec: DeploymentSpec,
    template: PodTemplateSpec,
    pod_spec: PodSpec,
    volume: Volume,
    container: Container,
    env_var: EnvVar,
    volume_mount: VolumeMount,
    security_context: SecurityContext,
    service: Service,
    service_spec: ServiceSpec,
)
    ensures
        owner@.api_version == owner.api_version@,
        owner@.kind == owner.kind@,
        owner@.name == owner.name@,
        owner@.uid == owner.uid@,
        metadata@.name == opt_view(metadata.name),
        metadata@.namespace == opt_view(metadata.namespace),
        metadata@.uid == opt_view(metadata.uid),
        metadata@.labels == opt_view(metadata.labels),
        metadata@.annotations == opt_view(metadata.annotations),
        metadata@.owner_references == opt_views(metadata.owner_references),
        claim@.metadata == claim.metadata@,
        claim@.spec == claim.spec@,
        claim_spec@.storage_class_name == claim_spec.storage_class_name@,
        claim_spec@.access_modes == views(claim_spec.access_modes@),
        claim_spec@.requests == claim_spec.requests@,
        deployment@.metadata == deployment.metadata@,
        deployment@.spec == deployment.spec@,
        deployment_spec@.strategy_type == deployment_spec.strategy_type@,
        deployment_spec@.match_labels == deployment_spec.match_labels@,
        deployment_spec@.template == deployment_spec.template@,
        template@.labels == template.labels@,
        template@.spec == template.spec@,
        pod_spec@.volumes == views(pod_spec.volumes@),
        pod_spec@.init_containers == views(pod_spec.init_containers@),
        pod_spec@.containers == views(pod_spec.containers@),
        volume@.name == volume.name@,
        volume@.claim_name == volume.claim_name@,
        volume@.read_only == volume.read_only,
        container@.name == container.name@,
        container@.image == container.image@,
        container@.command == opt_views(container.command),
        container@.args == opt_views(container.args),
        container@.env == opt_views(container.env),
        container@.volume_mounts == opt_views(container.volume_mounts),
        container@.security_context == container.security_context@,
        container@.requests == opt_view(container.requests),
        env_var@.name == env_var.name@,
        env_var@.value == opt_view(env_var.value),
        volume_mount@.name == volume_mount.name@,
        volume_mount@.mount_path == volume_mount.mount_path@,
        security_context@.privileged == security_context.privileged,
        security_context@.added_capabilities == opt_views(security_context.added_capabilities),
        service@.metadata == service.metadata@,
        service@.spec == opt_view(service.spec),
        service@.ingress == opt_views(service.ingress),
        service_spec@.load_balancer_class == opt_view(service_spec.load_balancer_class),
        service_spec@.cluster_ip == opt_view(service_spec.cluster_ip),
        service_spec@.load_balancer_ip == opt_view(service_spec.load_balancer_ip),
{
}

/// The models of machines and of requests for them hold what the values hold, each in its place.
pub proof fn lemma_machine_models(
    user: User,
    node: Node,
    parameter: Parameter,
    request: HttpRequest,
)
    ensures
        user@.name == user.name@,
        node@.id == node.id@,
        node@.name == node.name@,
        node@.ip_addresses == views(node.ip_addresses@),
        node@.node_key == node.node_key@,
        node@.user == node.user@,
        parameter@.name == parameter.name@,
        parameter@.value == parameter.value@,
        request@.method == request.method,
        request@.url == request.url@,
        request@.query == views(request.query@),
        request@.send_context == request.send_context@,
        request@.parse_context == opt_view(request.parse_context),
{
}

/// The models of the settings hold what the values hold, each in its place.
pub proof fn lemma_settings_models(
    data: Data,
    var: Var,
    environment: Environment,
    startup: Startup,
    header: Header,
)
    ensures
        data@.base_url == data.base_url@,
        data@.default_user == opt_view(data.default_user),
        data@.load_balancer_class == data.load_balancer_class@,
        data@.storage_class == data.storage_class@,
        data@.tailscale_image == data.tailscale_image@,
        var matches Var::Present(value) ==> var@ == VarView::Present(value@),
        var is NotPresent ==> var@ is NotPresent,
        var is NotUnicode ==> var@ is NotUnicode,
        environment@.control_plane_url == environment.control_plane_url@,
        environment@.control_plane_auth == environment.control_plane_auth@,
        environment@.storage_class == environment.storage_class@,
        environment@.default_user == environment.default_user@,
        environment@.load_balancer_class == environment.load_balancer_class@,
        environment@.tailscale_image == environment.tailscale_image@,
        startup@.data == startup.data@,
        startup@.authorization == startup.authorization@,
        header@.name == header.name@,
        header@.value == header.value@,
        header@.sensitive == header.sensitive,
{
}

/// The models of the errors hold what the values hold, each in its place.
pub proof fn lemma_error_models(
    error: ReconcileError,
)
    ensures
        error is MissingSpec ==> error@ is MissingSpec,
        error is MissingName ==> error@ is MissingName,
        error is MissingNamespace ==> error@ is MissingNamespace,
        error is MissingUid ==> error@ is MissingUid,
        error is MissingClusterIp ==> error@ is MissingClusterIp,
        error is MissingUser ==> error@ is MissingUser,
        error matches ReconcileError::AnnotatedNodeMissing(value)
            ==> error@ == ReconcileErrorView::AnnotatedNodeMissing(value@),
        error matches ReconcileError::RunningNodeMissing(value)
            ==> error@ == ReconcileErrorView::RunningNodeMissing(value@),
        error matches ReconcileError::UnknownState(value)
            ==> error@ == ReconcileErrorView::UnknownState(value@),
        error matches ReconcileError::InvalidAuthUrl(value)
            ==> error@ == ReconcileErrorView::InvalidAuthUrl(value),
        error is NoPathSegments ==> error@ is NoPathSegments,
        error is Timeout ==> error@ is Timeout,
        error is RequestFailed ==> error@ is RequestFailed,
{
}

/// The models of the status of a node hold what the values hold, each in its place.
pub proof fn lemma_status_models(
    this_node: LocalStatusSelf,
    local_status: LocalStatus,
    identity: Identity,
)
    ensures
        this_node@.node_key == this_node.node_key@,
        local_status@.backend_state == local_status.backend_state@,
        local_status@.auth_url == local_status.auth_url@,
        local_status@.this_node == local_status.this_node@,
        identity matches Identity::NeedsLogin(value)
            ==> identity@ == IdentityView::NeedsLogin(value@),
        identity matches Identity::Running(value) ==> identity@ == IdentityView::Running(value@),
{
}

/// The models of a plan hold what the values hold, each in its place.
pub proof fn lemma_plan_models(
    plan: Plan,
)
    ensures
        plan@.name == plan.name@,
        plan@.namespace == plan.namespace@,
        plan@.uid == plan.uid@,
        plan@.cluster_ip == plan.cluster_ip@,
        plan@.user == plan.user@,
        plan@.hostname == plan.hostname@,
        plan@.dns_name == plan.dns_name@,
        plan@.nodekey == opt_view(plan.nodekey),
{
}

/// The models of the watch for a pod hold what the values hold, each in its place.
pub proof fn lemma_watch_models(
    pod_watch: PodWatch,
    pod_status: PodStatus,
    pod: Pod,
    watch_event: WatchEvent,
    exec: Exec,
    watch_step: WatchStep,
)
    ensures
        pod_watch@.namespace == pod_watch.namespace@,
        pod_watch@.label_selector == pod_watch.label_selector@,
        pod_watch@.timeout_secs == pod_watch.timeout_secs,
        pod_watch@.resource_version == pod_watch.resource_version@,
        pod_status@.phase == opt_view(pod_status.phase),
        pod@.name == opt_view(pod.name),
        pod@.status == opt_view(pod.status),
        watch_event matches WatchEvent::Modified(value)
            ==> watch_event@ == WatchEventView::Modified(value@),
        watch_event matches WatchEvent::Added(value)
            ==> watch_event@ == WatchEventView::Added(value@),
        watch_event is Other ==> watch_event@ is Other,
        watch_event is End ==> watch_event@ is End,
        exec@.pod == exec.pod@,
        exec@.container == exec.container@,
        exec@.stdin == exec.stdin,
        exec@.stderr == exec.stderr,
        exec@.command == views(exec.command@),
        watch_step matches WatchStep::Attach(value)
            ==> watch_step@ == WatchStepView::Attach(value@),
        watch_step is Continue ==> watch_step@ is Continue,
        watch_step is Timeout ==> watch_step@ is Timeout,
{
}

/// The models of the requests and replies hold what the values hold, each in its place.
pub proof fn lemma_request_models(
    target: PatchTarget,
    request: Request,
    reply: Reply,
)
    ensures
        target@.namespace == target.namespace@,
        target@.name == target.name@,
        target@.field_manager == target.field_manager@,
        target@.force == target.force,
        request matches Request::PatchClaim { target, claim }
            ==> request@ == (RequestView::PatchClaim { target: target@, claim: claim@ }),
        request matches Request::PatchDeployment { target, deployment }
            ==> request@
            == (RequestView::PatchDeployment { target: target@, deployment: deployment@ }),
        request matches Request::AwaitStatus(value)
            ==> request@ == RequestView::AwaitStatus(value@),
        request matches Request::ListMachines(value)
            ==> request@ == RequestView::ListMachines(value@),
        request matches Request::RegisterNode(value)
            ==> request@ == RequestView::RegisterNode(value@),
        request matches Request::RenameNode(value) ==> request@ == RequestView::RenameNode(value@),
        request matches Request::ChangeUser(value) ==> request@ == RequestView::ChangeUser(value@),
        request matches Request::PatchService { target, service }
            ==> request@ == (RequestView::PatchService { target: target@, service: service@ }),
        request matches Request::PatchServiceStatus { target, service }
            ==> request@
            == (RequestView::PatchServiceStatus { target: target@, service: service@ }),
        reply is Patched ==> reply@ is Patched,
        reply matches Reply::Status(value) ==> reply@ == ReplyView::Status(value@),
        reply is Timeout ==> reply@ is Timeout,
        reply matches Reply::Machines(value) ==> reply@ == ReplyView::Machines(views(value@)),
        reply matches Reply::Machine(value) ==> reply@ == ReplyView::Machine(value@),
        reply is Failed ==> reply@ is Failed,
{
}

/// The models of the search for a node hold what the values hold, each in its place.
pub proof fn lemma_search_models(
    registration: Registration,
    step: RegistrationStep,
)
    ensures
        registration matches Registration::FindAnnotated(value)
            ==> registration@ == RegistrationView::FindAnnotated(value@),
        registration is AwaitStatus ==> registration@ is AwaitStatus,
        registration matches Registration::FindLogin(value)
            ==> registration@ == RegistrationView::FindLogin(value@),
        registration matches Registration::FindRunning(value)
            ==> registration@ == RegistrationView::FindRunning(value@),
        registration is Register ==> registration@ is Register,
        step matches RegistrationStep::Ask(first, second)
            ==> step@ == RegistrationStepView::Ask(first@, second@),
        step matches RegistrationStep::Found(value)
            ==> step@ == RegistrationStepView::Found(value@),
        step matches RegistrationStep::Fail(value) ==> step@ == RegistrationStepView::Fail(value@),
{
}

/// The models of a reconciliation hold what the values hold, each in its place.
pub proof fn lemma_reconciliation_models(
    progress: Progress,
    reconciliation: Reconciliation,
    step: Step,
    cleanup: Cleanup,
)
    ensures
        progress is ClaimSent ==> progress@ is ClaimSent,
        progress is DeploymentSent ==> progress@ is DeploymentSent,
        progress matches Progress::Registering(value)
            ==> progress@ == ProgressView::Registering(value@),
        progress matches Progress::NameSent(value) ==> progress@ == ProgressView::NameSent(value@),
        progress matches Progress::UserSent(value) ==> progress@ == ProgressView::UserSent(value@),
        progress matches Progress::ServiceSent(value)
            ==> progress@ == ProgressView::ServiceSent(views(value@)),
        progress is StatusSent ==> progress@ is StatusSent,
        reconciliation@.plan == reconciliation.plan@,
        reconciliation@.progress == reconciliation.progress@,
        step matches Step::Ask(first, second) ==> step@ == StepView::Ask(first@, second@),
        step matches Step::Done(value) ==> step@ == StepView::Done(value),
        step matches Step::Fail(value) ==> step@ == StepView::Fail(value@),
        cleanup matches Cleanup::Remove(value) ==> cleanup@ == CleanupView::Remove(value@),
        cleanup is StaleNode ==> cleanup@ is StaleNode,
        cleanup is Nothing ==> cleanup@ is Nothing,
{
}

/// The models of what is returned tell success from failure, and hold what is returned.
pub proof fn lemma_result_models(
    plan: Plan,
    identity: Identity,
    segments: Vec<String>,
    error: ReconcileError,
    parse_error: url::ParseError,
)
    ensures
        plan_view(Ok(Some(plan))) == Ok::<Option<PlanView>, ReconcileErrorView>(Some(plan@)),
        plan_view(Ok(None)) == Ok::<Option<PlanView>, ReconcileErrorView>(None),
        plan_view(Err(error)) == Err::<Option<PlanView>, ReconcileErrorView>(error@),
        identity_view(Ok(identity)) == Ok::<IdentityView, ReconcileErrorView>(identity@),
        identity_view(Err(error)) == Err::<IdentityView, ReconcileErrorView>(error@),
        segments_view(Ok(Some(segments))) == Ok::<Option<Seq<Seq<char>>>, url::ParseError>(
            Some(views(segments@)),
        ),
        segments_view(Ok(None)) == Ok::<Option<Seq<Seq<char>>>, url::ParseError>(None),
        segments_view(Err(parse_error)) == Err::<Option<Seq<Seq<char>>>, url::ParseError>(
            parse_error,
        ),
{
}

} // verus!
