//! What holds of the search for the node of a service, over what the cluster and the control plane
//! reply.

use crate::api::{
    change_user_request, find_node, lemma_find_node, list_request, register_request,
    rename_request, NodeView,
};
use crate::context::DataView;
use crate::error::ReconcileErrorView;
use crate::laws::run;
use crate::local_status::{
    has_nodekey, identity, identity_in, nodekey_in, url_path_segments, IdentityView,
    LocalStatusView,
};
use crate::objects::ServiceView;
use crate::plan::{plan_of, PlanView};
use crate::pod_watch::{
    decision, status_command, watch_of, well_formed, PodView, WatchEventView, WatchStepView,
};
use crate::reconcile::{
    answers, claim_request, deployment_request, first_step, lacks_nodekey, next_step,
    service_request, status_request, Action, ProgressView, ReconciliationView, StepView,
};
use crate::registration::{
    answers_registration, first_registration_step, next_registration_step, RegistrationStepView,
    RegistrationView,
};
use crate::request::{ReplyView, RequestView};
use crate::text::{after_first, lemma_after_first, lemma_after_first_skips_prefix};
use vstd::prelude::*;

verus! {

/// The pod that an event reports as new or changed.
pub open spec fn reported_pod(event: WatchEventView) -> Option<PodView> {
    match event {
        WatchEventView::Modified(pod) => Some(pod),
        WatchEventView::Added(pod) => Some(pod),
        WatchEventView::Other => None,
        WatchEventView::End => None,
    }
}

/// A pod is asked for the status of its node exactly where the event reports it as new or changed,
/// and its phase is `Running`. On every other phase, or none, the watch goes on, as on events of
/// other kinds. It is given up only when it ends.
pub proof fn lemma_only_running_pods_are_asked(event: WatchEventView)
    ensures
        decision(event) is Attach <==> (reported_pod(event) matches Some(pod)
            && pod.status matches Some(status) && status.phase == Some("Running"@)),
        decision(event) is Timeout <==> event is End,
        decision(event) matches WatchStepView::Attach(exec) ==> (reported_pod(event) matches Some(
            pod,
        ) && (pod.name matches Some(name) ==> exec.pod == name)),
{
}

/// What is run in a pod: the client of the proxy reports its status as JSON. Nothing is fed to it,
/// and its errors are not read.
pub proof fn lemma_status_command(pod: Seq<char>)
    ensures
        ({
            let exec = status_command(pod);
            &&& exec.pod == pod
            &&& exec.container == "tailscale"@
            &&& !exec.stdin
            &&& !exec.stderr
            &&& exec.command == seq![
                "tailscale"@,
                "--socket"@,
                "/tmp/tailscaled.sock"@,
                "status"@,
                "--json"@,
            ]
        }),
{
}

/// The event that is asked about names the pod that is asked, and the command is that of every pod.
pub proof fn lemma_running_pod_is_asked(pod: PodView, name: Seq<char>)
    requires
        pod.name == Some(name),
        pod.status matches Some(status) && status.phase == Some("Running"@),
    ensures
        decision(WatchEventView::Added(pod)) == WatchStepView::Attach(status_command(name)),
        decision(WatchEventView::Modified(pod)) == WatchStepView::Attach(status_command(name)),
{
}

/// An event is not well formed exactly where it reports a pod without a status, or one that runs
/// without a name.
pub proof fn lemma_well_formed_events(event: WatchEventView)
    ensures
        !well_formed(event) <==> (reported_pod(event) matches Some(pod) && (pod.status is None || (
        pod.status matches Some(status) && status.phase == Some("Running"@) && pod.name is None))),
{
}

/// The watch is for the pods with the label of the service, in its namespace, from the start, and
/// for a minute.
pub proof fn lemma_watch(namespace: Seq<char>, service: Seq<char>)
    ensures
        ({
            let watch = watch_of(namespace, service);
            &&& watch.namespace == namespace
            &&& watch.label_selector == "surge.unrouted.uk/service"@ + "="@ + service
            &&& watch.timeout_secs == 60
            &&& watch.resource_version == "0"@
        }),
{
}

proof fn lemma_states_differ()
    ensures
        "Running"@ != "NeedsLogin"@,
{
    reveal_strlit("Running");
    reveal_strlit("NeedsLogin");
    assert("Running"@.len() != "NeedsLogin"@.len());
}

/// What follows the first colon, where nothing before it has one.
proof fn lemma_behind_the_colon(prefix: Seq<char>, rest: Seq<char>)
    requires
        !prefix.contains(':'),
    ensures
        after_first(prefix + seq![':'] + rest, ':') == Some(rest),
{
    let tail = seq![':'] + rest;
    lemma_after_first_skips_prefix(prefix, tail, ':');
    assert(prefix + seq![':'] + rest == prefix + tail);
    assert(tail.skip(1) == rest);
}

/// A node that runs has the key that follows the first colon of the key it reports, whatever its
/// authorization URL is.
pub proof fn lemma_running_node_reports_its_key(
    status: LocalStatusView,
    prefix: Seq<char>,
    nodekey: Seq<char>,
)
    requires
        status.backend_state == "Running"@,
        !prefix.contains(':'),
        status.this_node.node_key == prefix + seq![':'] + nodekey,
    ensures
        identity(status) == Some(
            Ok::<IdentityView, ReconcileErrorView>(IdentityView::Running(nodekey)),
        ),
{
    lemma_states_differ();
    lemma_behind_the_colon(prefix, nodekey);
}

/// A node that needs a login has the key that follows the first colon of the last path segment of
/// its authorization URL, whatever key it reports.
pub proof fn lemma_login_url_holds_the_key(
    status: LocalStatusView,
    segments: Seq<Seq<char>>,
    prefix: Seq<char>,
    nodekey: Seq<char>,
)
    requires
        status.backend_state == "NeedsLogin"@,
        url_path_segments(status.auth_url) == Ok::<Option<Seq<Seq<char>>>, url::ParseError>(
            Some(segments),
        ),
        segments.len() > 0,
        !prefix.contains(':'),
        segments[segments.len() - 1] == prefix + seq![':'] + nodekey,
    ensures
        identity(status) == Some(
            Ok::<IdentityView, ReconcileErrorView>(IdentityView::NeedsLogin(nodekey)),
        ),
        has_nodekey(url_path_segments(status.auth_url)),
        nodekey_in(url_path_segments(status.auth_url)) == Ok::<Seq<char>, ReconcileErrorView>(
            nodekey,
        ),
{
    lemma_behind_the_colon(prefix, nodekey);
    lemma_after_first(segments.last(), ':');
}

/// A node that needs a login is an error where its authorization URL cannot be parsed, or has no
/// path segments.
pub proof fn lemma_login_url_may_be_of_no_use(status: LocalStatusView, error: url::ParseError)
    requires
        status.backend_state == "NeedsLogin"@,
    ensures
        url_path_segments(status.auth_url) == Err::<Option<Seq<Seq<char>>>, url::ParseError>(error)
            ==> identity(status) == Some(
            Err::<IdentityView, ReconcileErrorView>(ReconcileErrorView::InvalidAuthUrl(error)),
        ),
        url_path_segments(status.auth_url) == Ok::<Option<Seq<Seq<char>>>, url::ParseError>(None)
            ==> identity(status) == Some(
            Err::<IdentityView, ReconcileErrorView>(ReconcileErrorView::NoPathSegments),
        ),
{
}

/// A node in any other state is an error that names the state.
pub proof fn lemma_other_states_are_errors(status: LocalStatusView)
    requires
        status.backend_state != "NeedsLogin"@,
        status.backend_state != "Running"@,
    ensures
        identity(status) == Some(
            Err::<IdentityView, ReconcileErrorView>(
                ReconcileErrorView::UnknownState(status.backend_state),
            ),
        ),
{
}

/// A status shows nothing exactly where it is to show a node key, and the text that is to hold the
/// key has no colon.
pub proof fn lemma_what_shows_no_key(status: LocalStatusView)
    ensures
        ({
            let segments = url_path_segments(status.auth_url);
            identity(status) is None <==> {
                ||| status.backend_state == "Running"@ && !status.this_node.node_key.contains(':')
                ||| status.backend_state == "NeedsLogin"@ && (segments matches Ok(Some(segments))
                    && (segments.len() == 0 || !segments[segments.len() - 1].contains(':')))
            }
        }),
        lacks_nodekey(ReplyView::Status(status)) <==> identity(status) is None,
{
    lemma_states_differ();
    lemma_after_first(status.this_node.node_key, ':');
}

/// What a status shows with given path segments is what it shows with a URL that has them: nothing
/// but the state, the reported key and the segments matters.
pub proof fn lemma_segments_stand_for_the_url(
    status: LocalStatusView,
    other: LocalStatusView,
    segments: Result<Option<Seq<Seq<char>>>, url::ParseError>,
)
    requires
        url_path_segments(other.auth_url) == segments,
        other.backend_state == status.backend_state,
        other.this_node == status.this_node,
    ensures
        identity_in(status, segments) == identity(other),
        has_nodekey(segments) <==> (segments matches Ok(Some(segments)) ==> segments.len() > 0
            && segments[segments.len() - 1].contains(':')),
        segments matches Err(error) ==> nodekey_in(segments) == Err::<
            Seq<char>,
            ReconcileErrorView,
        >(ReconcileErrorView::InvalidAuthUrl(error)),
        segments == Ok::<Option<Seq<Seq<char>>>, url::ParseError>(None) ==> nodekey_in(segments)
            == Err::<Seq<char>, ReconcileErrorView>(ReconcileErrorView::NoPathSegments),
{
}

/// Whether the machine at `i` is the first with the node key.
pub open spec fn is_first_with_key(machines: Seq<NodeView>, i: int, nodekey: Seq<char>) -> bool {
    &&& 0 <= i < machines.len()
    &&& machines[i].node_key == nodekey
    &&& forall|j: int| 0 <= j < i ==> (#[trigger] machines[j]).node_key != nodekey
}

/// Whether no machine has the node key.
pub open spec fn none_has_key(machines: Seq<NodeView>, nodekey: Seq<char>) -> bool {
    forall|i: int| 0 <= i < machines.len() ==> (#[trigger] machines[i]).node_key != nodekey
}

proof fn lemma_first_with_key(machines: Seq<NodeView>, i: int, nodekey: Seq<char>)
    requires
        is_first_with_key(machines, i, nodekey),
    ensures
        find_node(machines, nodekey) == Some(machines[i]),
{
    lemma_find_node(machines, nodekey);
    let k = choose|k: int|
        {
            &&& 0 <= k < machines.len()
            &&& #[trigger] machines[k] == find_node(machines, nodekey)->0
            &&& forall|j: int| 0 <= j < k ==> (#[trigger] machines[j]).node_key != nodekey
        };
    assert(i == k);
}

/// The node key that the search looks for in the list of machines.
pub open spec fn sought_key(registration: RegistrationView) -> Option<Seq<char>> {
    match registration {
        RegistrationView::FindAnnotated(nodekey) => Some(nodekey),
        RegistrationView::FindLogin(nodekey) => Some(nodekey),
        RegistrationView::FindRunning(nodekey) => Some(nodekey),
        _ => None,
    }
}

/// The search begins with the list of machines where the service knows its node key, and else with
/// the watch for a pod of the service.
pub proof fn lemma_where_the_search_begins(plan: PlanView, ctx: DataView)
    ensures
        ({
            let (registration, request) = first_registration_step(plan, ctx);
            &&& plan.nodekey matches Some(nodekey) ==> registration
                == RegistrationView::FindAnnotated(nodekey) && request == RequestView::ListMachines(
                list_request(ctx.base_url),
            )
            &&& plan.nodekey is None ==> registration == RegistrationView::AwaitStatus && request
                == RequestView::AwaitStatus(watch_of(plan.namespace, plan.name))
        }),
{
}

/// Where a listed machine has the node key that is looked for, the search ends with the first such
/// machine, whatever its name, its user and its addresses are, and however the key was learnt.
pub proof fn lemma_listed_node_is_found(
    registration: RegistrationView,
    nodekey: Seq<char>,
    machines: Seq<NodeView>,
    i: int,
    plan: PlanView,
    ctx: DataView,
)
    requires
        sought_key(registration) == Some(nodekey),
        is_first_with_key(machines, i, nodekey),
    ensures
        next_registration_step(registration, ReplyView::Machines(machines), plan, ctx) == Some(
            RegistrationStepView::Found(machines[i]),
        ),
{
    lemma_first_with_key(machines, i, nodekey);
}

/// Where no listed machine has the node key, a node that needs a login is registered for the user
/// of the service. For one that runs, or that the service is annotated with, it is an error.
pub proof fn lemma_unlisted_node(
    nodekey: Seq<char>,
    machines: Seq<NodeView>,
    plan: PlanView,
    ctx: DataView,
)
    requires
        none_has_key(machines, nodekey),
    ensures
        ({
            let reply = ReplyView::Machines(machines);
            let annotated = RegistrationView::FindAnnotated(nodekey);
            let login = RegistrationView::FindLogin(nodekey);
            let running = RegistrationView::FindRunning(nodekey);
            &&& next_registration_step(annotated, reply, plan, ctx) == Some(
                RegistrationStepView::Fail(ReconcileErrorView::AnnotatedNodeMissing(nodekey)),
            )
            &&& next_registration_step(running, reply, plan, ctx) == Some(
                RegistrationStepView::Fail(ReconcileErrorView::RunningNodeMissing(nodekey)),
            )
            &&& next_registration_step(login, reply, plan, ctx) == Some(
                RegistrationStepView::Ask(
                    RegistrationView::Register,
                    RequestView::RegisterNode(register_request(ctx.base_url, nodekey, plan.user)),
                ),
            )
        }),
{
    lemma_find_node(machines, nodekey);
}

/// A node is reported as missing only where no listed machine has its key.
pub proof fn lemma_missing_nodes_are_not_listed(
    registration: RegistrationView,
    reply: ReplyView,
    plan: PlanView,
    ctx: DataView,
)
    ensures
        next_registration_step(registration, reply, plan, ctx) matches Some(
            RegistrationStepView::Fail(error),
        ) ==> {
            &&& error matches ReconcileErrorView::RunningNodeMissing(nodekey) ==> {
                &&& registration == RegistrationView::FindRunning(nodekey)
                &&& reply matches ReplyView::Machines(machines) && none_has_key(machines, nodekey)
            }
            &&& error matches ReconcileErrorView::AnnotatedNodeMissing(nodekey) ==> {
                &&& registration == RegistrationView::FindAnnotated(nodekey)
                &&& reply matches ReplyView::Machines(machines) && none_has_key(machines, nodekey)
            }
        },
{
    if let ReplyView::Machines(machines) = reply {
        match registration {
            RegistrationView::FindAnnotated(nodekey)
            | RegistrationView::FindRunning(nodekey)
            | RegistrationView::FindLogin(nodekey) => {
                lemma_find_node(machines, nodekey);
            },
            _ => {},
        }
    }
}

/// On the status of the node, the list of machines is asked for the key that the status shows. What
/// shows an error ends the search with it, as does a pod that does not run in time.
pub proof fn lemma_status_decides_what_is_sought(
    status: LocalStatusView,
    nodekey: Seq<char>,
    error: ReconcileErrorView,
    plan: PlanView,
    ctx: DataView,
)
    ensures
        ({
            let waiting = RegistrationView::AwaitStatus;
            let next = next_registration_step(waiting, ReplyView::Status(status), plan, ctx);
            let list = RequestView::ListMachines(list_request(ctx.base_url));
            &&& identity(status) == Some(
                Ok::<IdentityView, ReconcileErrorView>(IdentityView::Running(nodekey)),
            ) ==> next == Some(
                RegistrationStepView::Ask(RegistrationView::FindRunning(nodekey), list),
            )
            &&& identity(status) == Some(
                Ok::<IdentityView, ReconcileErrorView>(IdentityView::NeedsLogin(nodekey)),
            ) ==> next == Some(
                RegistrationStepView::Ask(RegistrationView::FindLogin(nodekey), list),
            )
            &&& identity(status) == Some(Err::<IdentityView, ReconcileErrorView>(error)) ==> next
                == Some(RegistrationStepView::Fail(error))
            &&& next_registration_step(waiting, ReplyView::Timeout, plan, ctx) == Some(
                RegistrationStepView::Fail(ReconcileErrorView::Timeout),
            )
        }),
{
}

/// The node that the control plane has registered is the node, whatever it is.
pub proof fn lemma_registered_node_is_found(node: NodeView, plan: PlanView, ctx: DataView)
    ensures
        next_registration_step(
            RegistrationView::Register,
            ReplyView::Machine(node),
            plan,
            ctx,
        ) == Some(RegistrationStepView::Found(node)),
{
}

/// Which replies answer which request: a patch is answered by its success, a watch by a status or a
/// timeout, a list by machines, and a change of a machine by a machine. A failure answers each.
pub proof fn lemma_which_replies_answer(progress: ProgressView, reply: ReplyView)
    ensures
        answers(progress, reply) <==> reply is Failed || match progress {
            ProgressView::ClaimSent => reply is Patched,
            ProgressView::DeploymentSent => reply is Patched,
            ProgressView::Registering(RegistrationView::AwaitStatus) => reply is Status
                || reply is Timeout,
            ProgressView::Registering(RegistrationView::Register) => reply is Machine,
            ProgressView::Registering(_) => reply is Machines,
            ProgressView::NameSent(_) => reply is Machine,
            ProgressView::UserSent(_) => reply is Machine,
            ProgressView::ServiceSent(_) => reply is Patched,
            ProgressView::StatusSent => reply is Patched,
        },
        progress matches ProgressView::Registering(registration) ==> (answers_registration(
            registration,
            reply,
        ) <==> answers(progress, reply)),
        lacks_nodekey(reply) ==> reply is Status,
{
}

/// Where there is no next step, the reply does not answer the request, or shows no node key.
pub proof fn lemma_what_leads_nowhere(
    current: ReconciliationView,
    registration: RegistrationView,
    reply: ReplyView,
    ctx: DataView,
)
    ensures
        next_step(current, reply, ctx) is None <==> !answers(current.progress, reply) || (
        reply matches ReplyView::Status(status) && identity(status) is None),
        next_registration_step(registration, reply, current.plan, ctx) is None <==> !answers(
            ProgressView::Registering(registration),
            reply,
        ) || (reply matches ReplyView::Status(status) && identity(status) is None),
{
}

/// Whether the step settles the node for the plan: a node with another name is renamed, else one
/// with another user is given to the user, and else the service learns of the node.
pub open spec fn settles(step: StepView, plan: PlanView, node: NodeView, ctx: DataView) -> bool {
    step matches StepView::Ask(current, request) && current.plan == plan && if node.name
        != plan.dns_name {
        &&& current.progress == ProgressView::NameSent(node)
        &&& request == RequestView::RenameNode(
            rename_request(ctx.base_url, node.id, plan.dns_name),
        )
    } else {
        settles_user(step, plan, node, ctx)
    }
}

/// Whether the step settles a node that has the right name: one with another user is given to the
/// user, and else the service learns of the node.
pub open spec fn settles_user(
    step: StepView,
    plan: PlanView,
    node: NodeView,
    ctx: DataView,
) -> bool {
    step matches StepView::Ask(current, request) && current.plan == plan && if node.user.name
        != plan.user {
        &&& current.progress == ProgressView::UserSent(node)
        &&& request == RequestView::ChangeUser(
            change_user_request(ctx.base_url, node.id, plan.user),
        )
    } else {
        teaches(step, plan, node)
    }
}

/// Whether in the step the service learns of the node.
pub open spec fn teaches(step: StepView, plan: PlanView, node: NodeView) -> bool {
    step matches StepView::Ask(current, request) && {
        &&& current.plan == plan
        &&& current.progress == ProgressView::ServiceSent(node.ip_addresses)
        &&& request == service_request(plan, node)
    }
}

/// A reconciliation begins with the volume claim. A service that is not planned, or cannot be, has
/// no request made for it.
pub proof fn lemma_reconciliations_begin_with_the_claim(
    service: ServiceView,
    plan: PlanView,
    error: ReconcileErrorView,
    ctx: DataView,
)
    ensures
        plan_of(service, ctx) == Ok::<Option<PlanView>, ReconcileErrorView>(Some(plan))
            ==> first_step(service, ctx) == StepView::Ask(
            ReconciliationView { plan, progress: ProgressView::ClaimSent },
            claim_request(plan, ctx),
        ),
        plan_of(service, ctx) == Ok::<Option<PlanView>, ReconcileErrorView>(None) ==> first_step(
            service,
            ctx,
        ) == StepView::Done(Action::Requeue(300)),
        plan_of(service, ctx) == Err::<Option<PlanView>, ReconcileErrorView>(error) ==> first_step(
            service,
            ctx,
        ) == StepView::Fail(error),
{
}

/// Each patch that succeeds leads to the next request: from the claim to the deployment, to the
/// search, and from the service to its status, to the end.
pub proof fn lemma_patches_lead_on(plan: PlanView, addresses: Seq<Seq<char>>, ctx: DataView)
    ensures
        ({
            let (registration, request) = first_registration_step(plan, ctx);
            let after = |progress: ProgressView|
                next_step(ReconciliationView { plan, progress }, ReplyView::Patched, ctx);
            &&& after(ProgressView::ClaimSent) == Some(
                StepView::Ask(
                    ReconciliationView { plan, progress: ProgressView::DeploymentSent },
                    deployment_request(plan, ctx),
                ),
            )
            &&& after(ProgressView::DeploymentSent) == Some(
                StepView::Ask(
                    ReconciliationView { plan, progress: ProgressView::Registering(registration) },
                    request,
                ),
            )
            &&& after(ProgressView::ServiceSent(addresses)) == Some(
                StepView::Ask(
                    ReconciliationView { plan, progress: ProgressView::StatusSent },
                    status_request(plan, addresses),
                ),
            )
            &&& after(ProgressView::StatusSent) == Some(StepView::Done(Action::Requeue(300)))
        }),
{
}

/// A reconciliation goes on as its search does, with the same plan, fails with it, and settles the
/// node that it finds.
pub proof fn lemma_search_leads_on(
    plan: PlanView,
    registration: RegistrationView,
    reply: ReplyView,
    ctx: DataView,
)
    ensures
        ({
            let current = ReconciliationView {
                plan,
                progress: ProgressView::Registering(registration),
            };
            match next_registration_step(registration, reply, plan, ctx) {
                None => next_step(current, reply, ctx) is None,
                Some(RegistrationStepView::Ask(next, request)) => next_step(current, reply, ctx)
                    == Some(
                    StepView::Ask(
                        ReconciliationView { plan, progress: ProgressView::Registering(next) },
                        request,
                    ),
                ),
                Some(RegistrationStepView::Fail(error)) => next_step(current, reply, ctx) == Some(
                    StepView::Fail(error),
                ),
                Some(RegistrationStepView::Found(node)) => next_step(
                    current,
                    reply,
                    ctx,
                ) matches Some(step) && settles(step, plan, node, ctx),
            }
        }),
{
}

/// What the control plane replies to a change of the node does not matter: the reconciliation goes
/// on with the node as it was found.
pub proof fn lemma_changes_lead_on(
    plan: PlanView,
    node: NodeView,
    changed: NodeView,
    ctx: DataView,
)
    ensures
        ({
            let reply = ReplyView::Machine(changed);
            let renamed = ReconciliationView { plan, progress: ProgressView::NameSent(node) };
            let moved = ReconciliationView { plan, progress: ProgressView::UserSent(node) };
            &&& next_step(renamed, reply, ctx) matches Some(step) && settles_user(
                step,
                plan,
                node,
                ctx,
            )
            &&& next_step(moved, reply, ctx) matches Some(step) && teaches(step, plan, node)
        }),
{
}

/// A service that knows no node key, and whose pod runs a node that runs, goes on with the first
/// listed machine that has the key of that node, whatever the name, the user and the addresses of
/// the machine are. It fails exactly where no listed machine has the key.
pub proof fn lemma_running_node_is_taken_from_the_list(
    service: ServiceView,
    plan: PlanView,
    status: LocalStatusView,
    prefix: Seq<char>,
    nodekey: Seq<char>,
    machines: Seq<NodeView>,
    i: int,
    ctx: DataView,
)
    requires
        plan_of(service, ctx) == Ok::<Option<PlanView>, ReconcileErrorView>(Some(plan)),
        plan.nodekey is None,
        status.backend_state == "Running"@,
        !prefix.contains(':'),
        status.this_node.node_key == prefix + seq![':'] + nodekey,
    ensures
        ({
            let replies = seq![
                ReplyView::Patched,
                ReplyView::Patched,
                ReplyView::Status(status),
                ReplyView::Machines(machines),
            ];
            let end = run(first_step(service, ctx), replies, ctx);
            &&& is_first_with_key(machines, i, nodekey) ==> (end matches Some(step) && settles(
                step,
                plan,
                machines[i],
                ctx,
            ))
            &&& end == Some(StepView::Fail(ReconcileErrorView::RunningNodeMissing(nodekey)))
                <==> none_has_key(machines, nodekey)
        }),
{
    reveal_with_fuel(run, 5);
    lemma_running_node_reports_its_key(status, prefix, nodekey);
    lemma_find_node(machines, nodekey);
    if is_first_with_key(machines, i, nodekey) {
        lemma_first_with_key(machines, i, nodekey);
    }
}

/// A service that knows its node key goes on with the first listed machine that has it, whatever
/// the name, the user and the addresses of the machine are. It fails exactly where no listed
/// machine has the key.
pub proof fn lemma_annotated_node_is_taken_from_the_list(
    service: ServiceView,
    plan: PlanView,
    nodekey: Seq<char>,
    machines: Seq<NodeView>,
    i: int,
    ctx: DataView,
)
    requires
        plan_of(service, ctx) == Ok::<Option<PlanView>, ReconcileErrorView>(Some(plan)),
        plan.nodekey == Some(nodekey),
    ensures
        ({
            let replies = seq![
                ReplyView::Patched,
                ReplyView::Patched,
                ReplyView::Machines(machines),
            ];
            let end = run(first_step(service, ctx), replies, ctx);
            &&& is_first_with_key(machines, i, nodekey) ==> (end matches Some(step) && settles(
                step,
                plan,
                machines[i],
                ctx,
            ))
            &&& end == Some(StepView::Fail(ReconcileErrorView::AnnotatedNodeMissing(nodekey)))
                <==> none_has_key(machines, nodekey)
        }),
{
    reveal_with_fuel(run, 4);
    lemma_find_node(machines, nodekey);
    if is_first_with_key(machines, i, nodekey) {
        lemma_first_with_key(machines, i, nodekey);
    }
}

/// A service that knows no node key, and whose pod runs a node that needs a login, goes on with the
/// first listed machine that has the key of that node, and has the node registered for its user
/// exactly where no listed machine has the key.
pub proof fn lemma_login_node_is_listed_or_registered(
    service: ServiceView,
    plan: PlanView,
    status: LocalStatusView,
    segments: Seq<Seq<char>>,
    prefix: Seq<char>,
    nodekey: Seq<char>,
    machines: Seq<NodeView>,
    i: int,
    ctx: DataView,
)
    requires
        plan_of(service, ctx) == Ok::<Option<PlanView>, ReconcileErrorView>(Some(plan)),
        plan.nodekey is None,
        status.backend_state == "NeedsLogin"@,
        url_path_segments(status.auth_url) == Ok::<Option<Seq<Seq<char>>>, url::ParseError>(
            Some(segments),
        ),
        segments.len() > 0,
        !prefix.contains(':'),
        segments[segments.len() - 1] == prefix + seq![':'] + nodekey,
    ensures
        ({
            let replies = seq![
                ReplyView::Patched,
                ReplyView::Patched,
                ReplyView::Status(status),
                ReplyView::Machines(machines),
            ];
            let end = run(first_step(service, ctx), replies, ctx);
            &&& is_first_with_key(machines, i, nodekey) ==> (end matches Some(step) && settles(
                step,
                plan,
                machines[i],
                ctx,
            ))
            &&& (end matches Some(StepView::Ask(_, request)) && request
                == RequestView::RegisterNode(register_request(ctx.base_url, nodekey, plan.user)))
                <==> none_has_key(machines, nodekey)
        }),
{
    reveal_with_fuel(run, 5);
    lemma_login_url_holds_the_key(status, segments, prefix, nodekey);
    lemma_find_node(machines, nodekey);
    if is_first_with_key(machines, i, nodekey) {
        lemma_first_with_key(machines, i, nodekey);
    }
}

} // verus!
