//! What holds of reconciliations as a whole.

use crate::api::{
    change_user_request, find_node, lemma_find_node, list_request, register_request,
    remove_request, rename_request, NodeView,
};
use crate::context::DataView;
use crate::error::ReconcileErrorView;
use crate::local_status::{identity, IdentityView, LocalStatusView};
use crate::objects::{ObjectMetaView, ServiceView};
use crate::plan::{
    is_ours, plan_of, PlanView, DNS_NAME_LABEL, HOSTNAME_LABEL, MACHINE_ID_ANNOTATION,
    NODEKEY_ANNOTATION, USER_LABEL,
};
use crate::pod_watch::{
    decision, runs, status_command, watch_of, PodView, WatchEventView, WatchStepView,
};
use crate::reconcile::{
    answers, ask, claim_request, cleanup_of, cleanup_result, deployment_request, first_step,
    lacks_nodekey, name_step, next_step, service_request, status_request, Action, CleanupView,
    ProgressView, ReconciliationView, StepView, REQUEUE_SECS,
};
use crate::registration::{
    first_registration_step, next_registration_step, RegistrationStepView, RegistrationView,
};
use crate::request::{ReplyView, RequestView};
use crate::resources::{
    desired_claim, desired_deployment, node_annotations, owner_of, SERVICE_LABEL,
};
use crate::string_map::lookup;
use crate::text::{after_first, lemma_after_first_skips_prefix};
use vstd::prelude::*;

verus! {

/// What a step comes to after the replies. `None` where a reply does not fit, or comes after the
/// end.
pub open spec fn run(step: StepView, replies: Seq<ReplyView>, ctx: DataView) -> Option<StepView>
    decreases replies.len(),
{
    if replies.len() == 0 {
        Some(step)
    } else {
        match step {
            StepView::Ask(current, _) => match next_step(current, replies[0], ctx) {
                Some(next) => run(next, replies.skip(1), ctx),
                None => None,
            },
            _ => None,
        }
    }
}

/// The requests that are made from a step on, up to the one after the last reply that fits.
pub open spec fn requests(step: StepView, replies: Seq<ReplyView>, ctx: DataView) -> Seq<
    RequestView,
>
    decreases replies.len(),
{
    match step {
        StepView::Ask(current, request) => if replies.len() == 0 {
            seq![request]
        } else {
            match next_step(current, replies[0], ctx) {
                Some(next) => seq![request] + requests(next, replies.skip(1), ctx),
                None => seq![request],
            }
        },
        _ => seq![],
    }
}

/// The place of a request in the order in which requests are made.
pub open spec fn stage(request: RequestView) -> int {
    match request {
        RequestView::PatchClaim { .. } => 0,
        RequestView::PatchDeployment { .. } => 1,
        RequestView::AwaitStatus(_) => 2,
        RequestView::ListMachines(_) => 3,
        RequestView::RegisterNode(_) => 4,
        RequestView::RenameNode(_) => 5,
        RequestView::ChangeUser(_) => 6,
        RequestView::PatchService { .. } => 7,
        RequestView::PatchServiceStatus { .. } => 8,
    }
}

/// The place of the request that the reconciliation has made last.
pub open spec fn rank(progress: ProgressView) -> int {
    match progress {
        ProgressView::ClaimSent => 0,
        ProgressView::DeploymentSent => 1,
        ProgressView::Registering(RegistrationView::AwaitStatus) => 2,
        ProgressView::Registering(RegistrationView::FindAnnotated(_)) => 3,
        ProgressView::Registering(RegistrationView::FindLogin(_)) => 3,
        ProgressView::Registering(RegistrationView::FindRunning(_)) => 3,
        ProgressView::Registering(RegistrationView::Register) => 4,
        ProgressView::NameSent(_) => 5,
        ProgressView::UserSent(_) => 6,
        ProgressView::ServiceSent(_) => 7,
        ProgressView::StatusSent => 8,
    }
}

/// A reply leads forward: each request has a later place than the one before it, and the plan
/// stays what it was.
pub proof fn lemma_replies_lead_forward(
    current: ReconciliationView,
    reply: ReplyView,
    ctx: DataView,
)
    ensures
        next_step(current, reply, ctx) matches Some(StepView::Ask(next, request)) ==> {
            &&& next.plan == current.plan
            &&& rank(current.progress) < rank(next.progress)
            &&& stage(request) == rank(next.progress)
        },
{
}

/// The requests of a reconciliation come in a fixed order, and each kind at most once.
pub proof fn lemma_requests_come_in_order(
    service: ServiceView,
    replies: Seq<ReplyView>,
    ctx: DataView,
)
    ensures
        ({
            let made = requests(first_step(service, ctx), replies, ctx);
            forall|i: int, j: int|
                0 <= i < j < made.len() ==> stage(#[trigger] made[i]) < stage(#[trigger] made[j])
        }),
{
    if let StepView::Ask(current, request) = first_step(service, ctx) {
        lemma_stages_increase(current, request, replies, ctx);
    }
}

proof fn lemma_stages_increase(
    current: ReconciliationView,
    request: RequestView,
    replies: Seq<ReplyView>,
    ctx: DataView,
)
    requires
        stage(request) == rank(current.progress),
    ensures
        ({
            let made = requests(StepView::Ask(current, request), replies, ctx);
            &&& made.len() > 0
            &&& made[0] == request
            &&& forall|i: int, j: int|
                0 <= i < j < made.len() ==> stage(#[trigger] made[i]) < stage(#[trigger] made[j])
        }),
    decreases replies.len(),
{
    reveal_with_fuel(requests, 2);
    if replies.len() > 0 {
        lemma_replies_lead_forward(current, replies[0], ctx);
        if let Some(StepView::Ask(next, later)) = next_step(current, replies[0], ctx) {
            lemma_stages_increase(next, later, replies.skip(1), ctx);
            let made = requests(StepView::Ask(current, request), replies, ctx);
            let rest = requests(StepView::Ask(next, later), replies.skip(1), ctx);
            assert forall|i: int, j: int| 0 <= i < j < made.len() implies stage(#[trigger] made[i])
                < stage(#[trigger] made[j]) by {
                assert(made[j] == rest[j - 1]);
                if i > 0 {
                    assert(made[i] == rest[i - 1]);
                } else if j > 1 {
                    assert(stage(rest[0]) < stage(rest[j - 1]));
                }
            }
        }
    }
}

/// A reconciliation makes nine requests at most, whatever the replies are.
pub proof fn lemma_reconciliations_end(
    service: ServiceView,
    replies: Seq<ReplyView>,
    ctx: DataView,
)
    ensures
        requests(first_step(service, ctx), replies, ctx).len() <= 9,
        replies.len() >= 9 ==> !(run(first_step(service, ctx), replies, ctx) matches Some(
            StepView::Ask(_, _),
        )),
{
    lemma_run_is_short(first_step(service, ctx), replies, ctx);
}

proof fn lemma_run_is_short(step: StepView, replies: Seq<ReplyView>, ctx: DataView)
    ensures
        step matches StepView::Ask(current, _) ==> {
            &&& requests(step, replies, ctx).len() <= 9 - rank(current.progress)
            &&& run(step, replies, ctx) matches Some(StepView::Ask(_, _)) ==> replies.len() <= 8
                - rank(current.progress)
        },
        !(step is Ask) ==> requests(step, replies, ctx).len() == 0 && !(run(
            step,
            replies,
            ctx,
        ) matches Some(StepView::Ask(_, _))),
    decreases replies.len(),
{
    if replies.len() > 0 {
        if let StepView::Ask(current, _) = step {
            lemma_replies_lead_forward(current, replies[0], ctx);
            if let Some(next) = next_step(current, replies[0], ctx) {
                lemma_run_is_short(next, replies.skip(1), ctx);
            }
        }
    }
}

/// A request that fails ends the reconciliation with that failure.
pub proof fn lemma_failure_ends_the_reconciliation(current: ReconciliationView, ctx: DataView)
    ensures
        next_step(current, ReplyView::Failed, ctx) == Some(
            StepView::Fail(ReconcileErrorView::RequestFailed),
        ),
{
}

/// The node key that is registered where the first replies are these: that of a node which needs a
/// login, and which the control plane does not list. A service that is annotated with a node key
/// has none registered.
pub open spec fn registered_key(plan: PlanView, replies: Seq<ReplyView>) -> Option<Seq<char>>
    recommends
        replies.len() >= 4,
{
    match (plan.nodekey, replies[2], replies[3]) {
        (None, ReplyView::Status(status), ReplyView::Machines(machines)) => match identity(status) {
            Some(Ok(IdentityView::NeedsLogin(nodekey))) => match find_node(machines, nodekey) {
                Some(_) => None,
                None => Some(nodekey),
            },
            _ => None,
        },
        _ => None,
    }
}

/// The node that the search finds where the first replies are these: the first that is listed with
/// the node key that the service is annotated with, or else with that of the node which the pod
/// runs, or the one that is registered.
pub open spec fn found_node(plan: PlanView, replies: Seq<ReplyView>) -> Option<NodeView>
    recommends
        replies.len() >= 5,
{
    match (plan.nodekey, replies[2], replies[3]) {
        (Some(nodekey), ReplyView::Machines(machines), _) => find_node(machines, nodekey),
        (None, ReplyView::Status(status), ReplyView::Machines(machines)) => match identity(status) {
            Some(Ok(IdentityView::NeedsLogin(nodekey))) => match find_node(machines, nodekey) {
                Some(node) => Some(node),
                None => match replies[4] {
                    ReplyView::Machine(node) => Some(node),
                    _ => None,
                },
            },
            Some(Ok(IdentityView::Running(nodekey))) => find_node(machines, nodekey),
            _ => None,
        },
        _ => None,
    }
}

/// The requests by which the node is found, where the first replies are these.
pub open spec fn search_requests(plan: PlanView, replies: Seq<ReplyView>, ctx: DataView) -> Seq<
    RequestView,
> {
    let wait = RequestView::AwaitStatus(watch_of(plan.namespace, plan.name));
    let list = RequestView::ListMachines(list_request(ctx.base_url));
    if plan.nodekey is Some {
        seq![list]
    } else {
        match registered_key(plan, replies) {
            Some(nodekey) => seq![
                wait,
                list,
                RequestView::RegisterNode(register_request(ctx.base_url, nodekey, plan.user)),
            ],
            None => seq![wait, list],
        }
    }
}

/// The requests by which the node gets the name and the user that the service asks for: each only
/// where the node does not have it.
pub open spec fn change_requests(plan: PlanView, node: NodeView, ctx: DataView) -> Seq<
    RequestView,
> {
    (if node.name != plan.dns_name {
        seq![RequestView::RenameNode(rename_request(ctx.base_url, node.id, plan.dns_name))]
    } else {
        seq![]
    }) + (if node.user.name != plan.user {
        seq![RequestView::ChangeUser(change_user_request(ctx.base_url, node.id, plan.user))]
    } else {
        seq![]
    })
}

/// A reconciliation that is done has made exactly these requests: for the volume claim, then for
/// the deployment, then those that find the node, those that change its name and its user where it
/// has others than the service asks for, and at the end those for the service and its status. The
/// last are for the node as the search has found it. If the service was annotated with a node key,
/// that node has it. The service is then reconciled again after a fixed time.
pub proof fn lemma_done_is_complete(
    service: ServiceView,
    plan: PlanView,
    replies: Seq<ReplyView>,
    ctx: DataView,
    action: Action,
)
    requires
        plan_of(service, ctx) == Ok::<Option<PlanView>, ReconcileErrorView>(Some(plan)),
        run(first_step(service, ctx), replies, ctx) == Some(StepView::Done(action)),
    ensures
        action == Action::Requeue(REQUEUE_SECS),
        found_node(plan, replies) is Some,
        ({
            let made = requests(first_step(service, ctx), replies, ctx);
            let node = found_node(plan, replies)->0;
            &&& made == seq![claim_request(plan, ctx), deployment_request(plan, ctx)]
                + search_requests(plan, replies, ctx) + change_requests(plan, node, ctx) + seq![
                service_request(plan, node),
                status_request(plan, node.ip_addresses),
            ]
            &&& replies.len() == made.len()
            &&& plan.nodekey matches Some(nodekey) ==> node.node_key == nodekey
        }),
{
    reveal_with_fuel(run, 2);
    reveal_with_fuel(requests, 2);
    let step = first_step(service, ctx);
    let made = requests(step, replies, ctx);
    let claimed = StepView::Ask(
        ReconciliationView { plan, progress: ProgressView::DeploymentSent },
        deployment_request(plan, ctx),
    );
    let rest = replies.skip(1);
    assert(replies[0] is Patched);
    assert(run(claimed, rest, ctx) == Some(StepView::Done(action)));
    assert(made == seq![claim_request(plan, ctx)] + requests(claimed, rest, ctx));
    assert(rest[0] is Patched);
    let (registration, request) = first_registration_step(plan, ctx);
    let last = rest.skip(1);
    let search = StepView::Ask(
        ReconciliationView { plan, progress: ProgressView::Registering(registration) },
        request,
    );
    assert(run(search, last, ctx) == Some(StepView::Done(action)));
    assert(requests(claimed, rest, ctx) == seq![deployment_request(plan, ctx)] + requests(
        search,
        last,
        ctx,
    ));
    assert(last == replies.skip(2));
    lemma_done_search(plan, replies, ctx, action);
    let node = found_node(plan, replies)->0;
    if let (Some(nodekey), ReplyView::Machines(machines)) = (plan.nodekey, replies[2]) {
        lemma_find_node(machines, nodekey);
    }
    assert(made == seq![claim_request(plan, ctx), deployment_request(plan, ctx)] + search_requests(
        plan,
        replies,
        ctx,
    ) + change_requests(plan, node, ctx) + seq![
        service_request(plan, node),
        status_request(plan, node.ip_addresses),
    ]);
}

/// The requests from the search for the node on.
proof fn lemma_done_search(
    plan: PlanView,
    replies: Seq<ReplyView>,
    ctx: DataView,
    action: Action,
)
    requires
        replies.len() >= 2,
        ({
            let (registration, request) = first_registration_step(plan, ctx);
            let progress = ProgressView::Registering(registration);
            run(ask(plan, progress, request), replies.skip(2), ctx) == Some(StepView::Done(action))
        }),
    ensures
        action == Action::Requeue(REQUEUE_SECS),
        found_node(plan, replies) is Some,
        ({
            let (registration, request) = first_registration_step(plan, ctx);
            let progress = ProgressView::Registering(registration);
            let made = requests(ask(plan, progress, request), replies.skip(2), ctx);
            let node = found_node(plan, replies)->0;
            &&& made == search_requests(plan, replies, ctx) + (change_requests(plan, node, ctx)
                + seq![service_request(plan, node), status_request(plan, node.ip_addresses)])
            &&& replies.len() == made.len() + 2
        }),
{
    reveal_with_fuel(run, 2);
    reveal_with_fuel(requests, 2);
    let (registration, request) = first_registration_step(plan, ctx);
    let list = RequestView::ListMachines(list_request(ctx.base_url));
    let step = ask(plan, ProgressView::Registering(registration), request);
    let first = replies.skip(2);
    let second = first.skip(1);
    let third = second.skip(1);
    assert(first.len() > 0 && first[0] == replies[2]);
    if plan.nodekey is Some {
        let node = found_node(plan, replies)->0;
        lemma_done_from_found(plan, node, second, ctx, action);
    } else if let ReplyView::Status(status) = replies[2] {
        let listing = ask(
            plan,
            ProgressView::Registering(
                match identity(status)->0->Ok_0 {
                    IdentityView::NeedsLogin(nodekey) => RegistrationView::FindLogin(nodekey),
                    IdentityView::Running(nodekey) => RegistrationView::FindRunning(nodekey),
                },
            ),
            list,
        );
        assert(run(listing, second, ctx) == Some(StepView::Done(action)));
        assert(second.len() > 0 && second[0] == replies[3]);
        match registered_key(plan, replies) {
            Some(nodekey) => {
                let register = RequestView::RegisterNode(
                    register_request(ctx.base_url, nodekey, plan.user),
                );
                let registering = ask(
                    plan,
                    ProgressView::Registering(RegistrationView::Register),
                    register,
                );
                assert(run(registering, third, ctx) == Some(StepView::Done(action)));
                assert(third.len() > 0 && third[0] == replies[4]);
                let node = found_node(plan, replies)->0;
                lemma_done_from_found(plan, node, third.skip(1), ctx, action);
                assert(requests(listing, second, ctx) == seq![list] + requests(
                    registering,
                    third,
                    ctx,
                ));
                assert(requests(step, first, ctx) == seq![request, list, register] + requests(
                    name_step(plan, node, ctx),
                    third.skip(1),
                    ctx,
                ));
            },
            None => {
                let node = found_node(plan, replies)->0;
                lemma_done_from_found(plan, node, third, ctx, action);
                assert(requests(step, first, ctx) == seq![request, list] + requests(
                    name_step(plan, node, ctx),
                    third,
                    ctx,
                ));
            },
        }
    }
}

/// The requests once the node is found.
proof fn lemma_done_from_found(
    plan: PlanView,
    node: NodeView,
    replies: Seq<ReplyView>,
    ctx: DataView,
    action: Action,
)
    requires
        run(name_step(plan, node, ctx), replies, ctx) == Some(StepView::Done(action)),
    ensures
        action == Action::Requeue(REQUEUE_SECS),
        ({
            let made = requests(name_step(plan, node, ctx), replies, ctx);
            &&& made == change_requests(plan, node, ctx) + seq![
                service_request(plan, node),
                status_request(plan, node.ip_addresses),
            ]
            &&& replies.len() == made.len()
        }),
{
    reveal_with_fuel(run, 5);
    reveal_with_fuel(requests, 5);
}

/// A node is registered only after the control plane has been asked for its machines and has none
/// with the node key, and only for a node that needs a login.
pub proof fn lemma_no_second_registration(
    current: ReconciliationView,
    reply: ReplyView,
    next: ReconciliationView,
    request: RequestView,
    ctx: DataView,
)
    requires
        next_step(current, reply, ctx) == Some(StepView::Ask(next, request)),
        request is RegisterNode,
    ensures
        match (current.progress, reply) {
            (
                ProgressView::Registering(RegistrationView::FindLogin(nodekey)),
                ReplyView::Machines(machines),
            ) => {
                &&& request == RequestView::RegisterNode(
                    register_request(ctx.base_url, nodekey, current.plan.user),
                )
                &&& forall|i: int|
                    0 <= i < machines.len() ==> (#[trigger] machines[i]).node_key != nodekey
            },
            _ => false,
        },
{
    if let (
        ProgressView::Registering(RegistrationView::FindLogin(nodekey)),
        ReplyView::Machines(machines),
    ) = (current.progress, reply) {
        lemma_find_node(machines, nodekey);
    }
}

/// A node is renamed exactly where it is found with another name than the service asks for, and
/// then given to another user exactly where it has another user.
pub proof fn lemma_changes_are_made_where_needed(
    current: ReconciliationView,
    reply: ReplyView,
    next: ReconciliationView,
    request: RequestView,
    ctx: DataView,
)
    requires
        next_step(current, reply, ctx) == Some(StepView::Ask(next, request)),
    ensures
        request is RenameNode ==> match next.progress {
            ProgressView::NameSent(node) => {
                &&& node.name != current.plan.dns_name
                &&& request == RequestView::RenameNode(
                    rename_request(ctx.base_url, node.id, current.plan.dns_name),
                )
            },
            _ => false,
        },
        request is ChangeUser ==> match next.progress {
            ProgressView::UserSent(node) => {
                &&& node.user.name != current.plan.user
                &&& request == RequestView::ChangeUser(
                    change_user_request(ctx.base_url, node.id, current.plan.user),
                )
            },
            _ => false,
        },
        match current.progress {
            ProgressView::Registering(registration) => match next_registration_step(
                registration,
                reply,
                current.plan,
                ctx,
            ) {
                Some(RegistrationStepView::Found(node)) => {
                    &&& request is RenameNode <==> node.name != current.plan.dns_name
                    &&& request is ChangeUser <==> node.name == current.plan.dns_name
                        && node.user.name != current.plan.user
                    &&& request is PatchService <==> node.name == current.plan.dns_name
                        && node.user.name == current.plan.user
                },
                _ => true,
            },
            ProgressView::NameSent(node) => {
                &&& request is ChangeUser <==> node.user.name != current.plan.user
                &&& request is PatchService <==> node.user.name == current.plan.user
            },
            _ => true,
        },
{
}

/// A reconciliation that is done has renamed the node that the search has found exactly where it
/// had another name than the service asks for, and given it to another user exactly where it had
/// another user.
pub proof fn lemma_done_has_made_the_changes(
    service: ServiceView,
    plan: PlanView,
    replies: Seq<ReplyView>,
    ctx: DataView,
    action: Action,
)
    requires
        plan_of(service, ctx) == Ok::<Option<PlanView>, ReconcileErrorView>(Some(plan)),
        run(first_step(service, ctx), replies, ctx) == Some(StepView::Done(action)),
    ensures
        ({
            let made = requests(first_step(service, ctx), replies, ctx);
            let node = found_node(plan, replies)->0;
            &&& (exists|i: int| 0 <= i < made.len() && (#[trigger] made[i]) is RenameNode)
                <==> node.name != plan.dns_name
            &&& (exists|i: int| 0 <= i < made.len() && (#[trigger] made[i]) is ChangeUser)
                <==> node.user.name != plan.user
        }),
{
    lemma_done_is_complete(service, plan, replies, ctx, action);
    let made = requests(first_step(service, ctx), replies, ctx);
    let node = found_node(plan, replies)->0;
    let before = seq![claim_request(plan, ctx), deployment_request(plan, ctx)] + search_requests(
        plan,
        replies,
        ctx,
    );
    let changes = change_requests(plan, node, ctx);
    assert forall|i: int| 0 <= i < made.len() && (i < before.len() || i >= before.len()
        + changes.len()) implies !((#[trigger] made[i]) is RenameNode) && !(made[i]
        is ChangeUser) by {
        if i < before.len() {
            assert(made[i] == before[i]);
        }
    }
    if node.name != plan.dns_name {
        assert(changes[0] == made[before.len() as int]);
    }
    if node.user.name != plan.user {
        assert(changes.last() == made[before.len() + changes.len() - 1]);
    }
    assert forall|i: int| before.len() <= i < before.len() + changes.len() implies changes[i
        - before.len()] == #[trigger] made[i] by {}
}

/// A service that knows its node, where the node has the name and the user that the service asks
/// for, is reconciled with five requests, none of which changes the control plane.
pub proof fn lemma_settled_service(
    service: ServiceView,
    plan: PlanView,
    nodekey: Seq<char>,
    machines: Seq<NodeView>,
    node: NodeView,
    ctx: DataView,
)
    requires
        plan_of(service, ctx) == Ok::<Option<PlanView>, ReconcileErrorView>(Some(plan)),
        plan.nodekey == Some(nodekey),
        find_node(machines, nodekey) == Some(node),
        node.name == plan.dns_name,
        node.user.name == plan.user,
    ensures
        ({
            let replies = seq![
                ReplyView::Patched,
                ReplyView::Patched,
                ReplyView::Machines(machines),
                ReplyView::Patched,
                ReplyView::Patched,
            ];
            &&& run(first_step(service, ctx), replies, ctx) == Some(
                StepView::Done(Action::Requeue(REQUEUE_SECS)),
            )
            &&& requests(first_step(service, ctx), replies, ctx) == seq![
                claim_request(plan, ctx),
                deployment_request(plan, ctx),
                RequestView::ListMachines(list_request(ctx.base_url)),
                service_request(plan, node),
                status_request(plan, node.ip_addresses),
            ]
        }),
{
    reveal_with_fuel(run, 6);
    reveal_with_fuel(requests, 6);
}

/// A service that does not know its node yet, and whose pod runs a node that needs a login and
/// that the control plane does not know, has that node registered for its user.
pub proof fn lemma_new_node_is_registered(
    service: ServiceView,
    plan: PlanView,
    status: LocalStatusView,
    nodekey: Seq<char>,
    machines: Seq<NodeView>,
    ctx: DataView,
)
    requires
        plan_of(service, ctx) == Ok::<Option<PlanView>, ReconcileErrorView>(Some(plan)),
        plan.nodekey is None,
        identity(status) == Some(
            Ok::<IdentityView, ReconcileErrorView>(IdentityView::NeedsLogin(nodekey)),
        ),
        forall|i: int| 0 <= i < machines.len() ==> (#[trigger] machines[i]).node_key != nodekey,
    ensures
        requests(
            first_step(service, ctx),
            seq![
                ReplyView::Patched,
                ReplyView::Patched,
                ReplyView::Status(status),
                ReplyView::Machines(machines),
            ],
            ctx,
        ) == seq![
            claim_request(plan, ctx),
            deployment_request(plan, ctx),
            RequestView::AwaitStatus(watch_of(plan.namespace, plan.name)),
            RequestView::ListMachines(list_request(ctx.base_url)),
            RequestView::RegisterNode(register_request(ctx.base_url, nodekey, plan.user)),
        ],
{
    reveal_with_fuel(requests, 5);
    lemma_find_node(machines, nodekey);
}

/// A node that has been registered, and has another name and another user than the service asks
/// for, gets both before the service learns of it. The replies to these two requests do not matter.
pub proof fn lemma_new_node_is_settled(
    service: ServiceView,
    plan: PlanView,
    status: LocalStatusView,
    nodekey: Seq<char>,
    machines: Seq<NodeView>,
    node: NodeView,
    renamed: NodeView,
    moved: NodeView,
    ctx: DataView,
)
    requires
        plan_of(service, ctx) == Ok::<Option<PlanView>, ReconcileErrorView>(Some(plan)),
        plan.nodekey is None,
        identity(status) == Some(
            Ok::<IdentityView, ReconcileErrorView>(IdentityView::NeedsLogin(nodekey)),
        ),
        forall|i: int| 0 <= i < machines.len() ==> (#[trigger] machines[i]).node_key != nodekey,
        node.name != plan.dns_name,
        node.user.name != plan.user,
    ensures
        ({
            let replies = seq![
                ReplyView::Patched,
                ReplyView::Patched,
                ReplyView::Status(status),
                ReplyView::Machines(machines),
                ReplyView::Machine(node),
                ReplyView::Machine(renamed),
                ReplyView::Machine(moved),
                ReplyView::Patched,
                ReplyView::Patched,
            ];
            &&& run(first_step(service, ctx), replies, ctx) == Some(
                StepView::Done(Action::Requeue(REQUEUE_SECS)),
            )
            &&& requests(first_step(service, ctx), replies, ctx) == seq![
                claim_request(plan, ctx),
                deployment_request(plan, ctx),
                RequestView::AwaitStatus(watch_of(plan.namespace, plan.name)),
                RequestView::ListMachines(list_request(ctx.base_url)),
                RequestView::RegisterNode(register_request(ctx.base_url, nodekey, plan.user)),
                RequestView::RenameNode(rename_request(ctx.base_url, node.id, plan.dns_name)),
                RequestView::ChangeUser(change_user_request(ctx.base_url, node.id, plan.user)),
                service_request(plan, node),
                status_request(plan, node.ip_addresses),
            ]
        }),
{
    reveal_with_fuel(run, 10);
    reveal_with_fuel(requests, 10);
    lemma_find_node(machines, nodekey);
}

/// A service that is annotated with a node key has no node registered, and its pods are not
/// watched.
pub proof fn lemma_annotated_service_is_not_registered(
    service: ServiceView,
    replies: Seq<ReplyView>,
    ctx: DataView,
)
    requires
        lookup(service.metadata.annotations, NODEKEY_ANNOTATION@) is Some,
    ensures
        ({
            let made = requests(first_step(service, ctx), replies, ctx);
            forall|i: int|
                0 <= i < made.len() ==> !((#[trigger] made[i]) is RegisterNode)
                    && !(made[i] is AwaitStatus)
        }),
{
    if let StepView::Ask(current, request) = first_step(service, ctx) {
        lemma_annotated_from(current, request, replies, ctx);
    }
}

proof fn lemma_annotated_from(
    current: ReconciliationView,
    request: RequestView,
    replies: Seq<ReplyView>,
    ctx: DataView,
)
    requires
        current.plan.nodekey is Some,
        current.progress matches ProgressView::Registering(registration) ==> registration
            is FindAnnotated,
        !(request is RegisterNode) && !(request is AwaitStatus),
    ensures
        ({
            let made = requests(StepView::Ask(current, request), replies, ctx);
            forall|i: int|
                0 <= i < made.len() ==> !((#[trigger] made[i]) is RegisterNode)
                    && !(made[i] is AwaitStatus)
        }),
    decreases replies.len(),
{
    reveal_with_fuel(requests, 2);
    if replies.len() > 0 {
        if let Some(StepView::Ask(next, later)) = next_step(current, replies[0], ctx) {
            lemma_annotated_from(next, later, replies.skip(1), ctx);
        }
    }
}

/// A service annotated for a node is the way back to that node: its deletion removes the node with
/// the id, and its next reconciliation looks for the node with the node key.
pub proof fn lemma_annotations_lead_back(service: ServiceView, node: NodeView, ctx: DataView)
    requires
        service.metadata.annotations matches Some(annotations) && node_annotations(
            node,
        ).submap_of(annotations),
    ensures
        cleanup_of(service, ctx) == CleanupView::Remove(remove_request(ctx.base_url, node.id)),
        plan_of(service, ctx) matches Ok(Some(plan)) ==> first_registration_step(plan, ctx) == (
            RegistrationView::FindAnnotated(node.node_key),
            RequestView::ListMachines(list_request(ctx.base_url)),
        ),
{
    reveal_strlit("surge.unrouted.uk/nodekey");
    reveal_strlit("surge.unrouted.uk/machine-id");
    let annotations = service.metadata.annotations->0;
    assert(node_annotations(node).contains_key(NODEKEY_ANNOTATION@));
    assert(node_annotations(node).contains_key(MACHINE_ID_ANNOTATION@));
    assert(annotations.contains_key(NODEKEY_ANNOTATION@));
    assert(annotations.contains_key(MACHINE_ID_ANNOTATION@));
    assert(NODEKEY_ANNOTATION@.len() != MACHINE_ID_ANNOTATION@.len());
    assert(annotations[NODEKEY_ANNOTATION@] == node.node_key);
}

/// The cleanup of a deleted service fails exactly where the service is annotated with the id of a
/// node and the removal of that node fails, and else leaves the service alone until it changes.
pub proof fn lemma_cleanup_fails_with_the_removal(
    service: ServiceView,
    removed: bool,
    ctx: DataView,
)
    ensures
        ({
            let id = lookup(service.metadata.annotations, MACHINE_ID_ANNOTATION@);
            let cleanup = cleanup_of(service, ctx);
            let result = cleanup_result(cleanup, removed);
            &&& cleanup is Remove <==> id is Some
            &&& id matches Some(id) ==> cleanup == CleanupView::Remove(
                remove_request(ctx.base_url, id),
            )
            &&& result is Err <==> id is Some && !removed
            &&& result matches Err(error) ==> error == ReconcileErrorView::RequestFailed
            &&& result matches Ok(action) ==> action == Action::AwaitChange
        }),
{
}

/// A reconciliation goes on from exactly those replies that answer the last request and hold no
/// node key without a colon.
pub proof fn lemma_where_a_reconciliation_goes_on(
    current: ReconciliationView,
    reply: ReplyView,
    ctx: DataView,
)
    ensures
        next_step(current, reply, ctx) is Some <==> answers(current.progress, reply)
            && !lacks_nodekey(reply),
{
}

/// A service of another load balancer class is left alone.
pub proof fn lemma_foreign_service_is_left_alone(
    service: ServiceView,
    replies: Seq<ReplyView>,
    ctx: DataView,
)
    requires
        service.spec matches Some(spec) && !is_ours(spec, ctx),
    ensures
        first_step(service, ctx) == StepView::Done(Action::Requeue(REQUEUE_SECS)),
        requests(first_step(service, ctx), replies, ctx).len() == 0,
{
}

/// Without labels, the node has the name of the service, inside the pod and on the tailnet, and
/// belongs to the default user.
pub proof fn lemma_names_without_labels(service: ServiceView, plan: PlanView, ctx: DataView)
    requires
        plan_of(service, ctx) == Ok::<Option<PlanView>, ReconcileErrorView>(Some(plan)),
        lookup(service.metadata.labels, USER_LABEL@) is None,
        lookup(service.metadata.labels, HOSTNAME_LABEL@) is None,
        lookup(service.metadata.labels, DNS_NAME_LABEL@) is None,
    ensures
        plan.hostname == plan.name,
        plan.dns_name == plan.name,
        Some(plan.user) == ctx.default_user,
{
}

/// Where a label of the service names the user, the default user changes no request, and not what
/// the reconciliation comes to.
pub proof fn lemma_user_label_overrides_the_default(
    service: ServiceView,
    default_user: Option<Seq<char>>,
    replies: Seq<ReplyView>,
    ctx: DataView,
)
    requires
        lookup(service.metadata.labels, USER_LABEL@) is Some,
    ensures
        ({
            let other = DataView { default_user, ..ctx };
            &&& first_step(service, other) == first_step(service, ctx)
            &&& requests(first_step(service, other), replies, other) == requests(
                first_step(service, ctx),
                replies,
                ctx,
            )
            &&& run(first_step(service, other), replies, other) == run(
                first_step(service, ctx),
                replies,
                ctx,
            )
        }),
{
    lemma_default_user_is_not_read(first_step(service, ctx), default_user, replies, ctx);
}

proof fn lemma_default_user_is_not_read(
    step: StepView,
    default_user: Option<Seq<char>>,
    replies: Seq<ReplyView>,
    ctx: DataView,
)
    ensures
        ({
            let other = DataView { default_user, ..ctx };
            &&& requests(step, replies, other) == requests(step, replies, ctx)
            &&& run(step, replies, other) == run(step, replies, ctx)
        }),
    decreases replies.len(),
{
    let other = DataView { default_user, ..ctx };
    if replies.len() > 0 {
        if let StepView::Ask(current, _) = step {
            assert(next_step(current, replies[0], other) == next_step(current, replies[0], ctx));
            if let Some(next) = next_step(current, replies[0], ctx) {
                lemma_default_user_is_not_read(next, default_user, replies.skip(1), ctx);
            }
        }
    }
}

/// In the search for the node the user matters only to a registration, which is made for it: all
/// else that the search does, and whether a node is registered, is the same for every user. So are
/// the volume claim, the deployment and what is set on the service.
pub proof fn lemma_user_matters_to_a_registration(
    registration: RegistrationView,
    reply: ReplyView,
    plan: PlanView,
    user: Seq<char>,
    node: NodeView,
    ctx: DataView,
)
    ensures
        ({
            let other = PlanView { user, ..plan };
            &&& first_registration_step(other, ctx) == first_registration_step(plan, ctx)
            &&& match next_registration_step(registration, reply, plan, ctx) {
                Some(RegistrationStepView::Ask(next, RequestView::RegisterNode(request))) => {
                    registration matches RegistrationView::FindLogin(nodekey) && request
                        == register_request(ctx.base_url, nodekey, plan.user)
                        && next_registration_step(registration, reply, other, ctx) == Some(
                        RegistrationStepView::Ask(
                            next,
                            RequestView::RegisterNode(
                                register_request(ctx.base_url, nodekey, user),
                            ),
                        ),
                    )
                },
                step => next_registration_step(registration, reply, other, ctx) == step,
            }
            &&& claim_request(other, ctx) == claim_request(plan, ctx)
            &&& deployment_request(other, ctx) == deployment_request(plan, ctx)
            &&& service_request(other, node) == service_request(plan, node)
            &&& status_request(other, node.ip_addresses) == status_request(plan, node.ip_addresses)
        }),
{
}

/// What is annotated on a service does not change the volume claim and the deployment that are
/// made for it, so that a later reconciliation patches them to what they are.
pub proof fn lemma_objects_do_not_depend_on_annotations(
    service: ServiceView,
    annotations: Option<Map<Seq<char>, Seq<char>>>,
    plan: PlanView,
    ctx: DataView,
)
    requires
        plan_of(service, ctx) == Ok::<Option<PlanView>, ReconcileErrorView>(Some(plan)),
    ensures
        ({
            let annotated = ServiceView {
                metadata: ObjectMetaView { annotations, ..service.metadata },
                ..service
            };
            plan_of(annotated, ctx) matches Ok(Some(later)) && claim_request(later, ctx)
                == claim_request(plan, ctx) && deployment_request(later, ctx) == deployment_request(
                plan,
                ctx,
            )
        }),
{
}

/// The deployment selects the pods that it creates, and the watch selects them too: it looks in
/// the namespace of the deployment for the label that they have.
pub proof fn lemma_selectors_find_the_pods(plan: PlanView, ctx: DataView)
    ensures
        ({
            let deployment = desired_deployment(plan, ctx);
            let labels = deployment.spec.template.labels;
            let watch = watch_of(plan.namespace, plan.name);
            &&& deployment.spec.match_labels.submap_of(labels)
            &&& deployment.metadata.namespace == Some(watch.namespace)
            &&& labels.contains_key(SERVICE_LABEL@)
            &&& watch.label_selector == SERVICE_LABEL@ + "="@ + labels[SERVICE_LABEL@]
        }),
{
}

/// The pods of a service with another name are selected neither by the watch for the service nor by
/// its deployment: they have another value of the label.
pub proof fn lemma_selectors_leave_out_other_pods(plan: PlanView, other: PlanView, ctx: DataView)
    requires
        plan.name != other.name,
    ensures
        ({
            let labels = desired_deployment(other, ctx).spec.template.labels;
            let watch = watch_of(plan.namespace, plan.name);
            &&& watch.label_selector != SERVICE_LABEL@ + "="@ + labels[SERVICE_LABEL@]
            &&& !desired_deployment(plan, ctx).spec.match_labels.submap_of(labels)
        }),
{
    let prefix = SERVICE_LABEL@ + "="@;
    let wanted = desired_deployment(plan, ctx).spec.match_labels;
    let labels = desired_deployment(other, ctx).spec.template.labels;
    assert(wanted[SERVICE_LABEL@] == plan.name);
    assert(labels[SERVICE_LABEL@] == other.name);
    assert(prefix + plan.name != prefix + other.name) by {
        assert((prefix + plan.name).skip(prefix.len() as int) == plan.name);
        assert((prefix + other.name).skip(prefix.len() as int) == other.name);
    }
    assert(!wanted.submap_of(labels)) by {
        assert(wanted.dom().contains(SERVICE_LABEL@));
        assert(labels.dom().contains(SERVICE_LABEL@));
    }
}

/// The state of the proxy is kept in the volume claim: the pod has a volume of that claim, the
/// proxy sees the volume, and is told to keep its state there.
pub proof fn lemma_state_is_kept(plan: PlanView, ctx: DataView)
    ensures
        ({
            let claim = desired_claim(plan, ctx);
            let deployment = desired_deployment(plan, ctx);
            let pod = deployment.spec.template.spec;
            let proxy = pod.containers[0];
            &&& claim.metadata.namespace == deployment.metadata.namespace
            &&& pod.volumes.len() == 1
            &&& claim.metadata.name == Some(pod.volumes[0].claim_name)
            &&& !pod.volumes[0].read_only
            &&& pod.containers.len() == 1
            &&& proxy.volume_mounts matches Some(mounts) && mounts.len() == 1 && mounts[0].name
                == pod.volumes[0].name && (proxy.env matches Some(env) && env[0].name
                == "TS_STATE_DIR"@ && env[0].value == Some(mounts[0].mount_path))
        }),
{
}

/// The volume claim and the deployment are owned by the service, and by nothing else.
pub proof fn lemma_objects_are_owned(plan: PlanView, ctx: DataView)
    ensures
        desired_claim(plan, ctx).metadata.owner_references == Some(seq![owner_of(plan)]),
        desired_deployment(plan, ctx).metadata.owner_references == Some(seq![owner_of(plan)]),
        owner_of(plan).name == plan.name,
        owner_of(plan).uid == plan.uid,
{
}

/// Whether the request patches or watches only objects in the namespace.
pub open spec fn is_within(request: RequestView, namespace: Seq<char>) -> bool {
    match request {
        RequestView::PatchClaim { target, claim } => target.namespace == namespace
            && claim.metadata.namespace == Some(namespace),
        RequestView::PatchDeployment { target, deployment } => target.namespace == namespace
            && deployment.metadata.namespace == Some(namespace),
        RequestView::AwaitStatus(watch) => watch.namespace == namespace,
        RequestView::PatchService { target, service } => target.namespace == namespace
            && service.metadata.namespace == Some(namespace),
        RequestView::PatchServiceStatus { target, service } => target.namespace == namespace
            && service.metadata.namespace == Some(namespace),
        _ => true,
    }
}

/// Whether the target of a patch is the object that is sent.
pub open spec fn names_its_object(request: RequestView) -> bool {
    match request {
        RequestView::PatchClaim { target, claim } => claim.metadata.name == Some(target.name),
        RequestView::PatchDeployment { target, deployment } => deployment.metadata.name == Some(
            target.name,
        ),
        RequestView::PatchService { target, service } => service.metadata.name == Some(target.name),
        RequestView::PatchServiceStatus { target, service } => service.metadata.name == Some(
            target.name,
        ),
        _ => true,
    }
}

/// All that a reconciliation patches and watches lies in the namespace of the service, and every
/// patch goes to the object that it describes.
pub proof fn lemma_requests_stay_in_the_namespace(
    service: ServiceView,
    namespace: Seq<char>,
    replies: Seq<ReplyView>,
    ctx: DataView,
)
    requires
        service.metadata.namespace == Some(namespace),
    ensures
        ({
            let made = requests(first_step(service, ctx), replies, ctx);
            forall|i: int|
                0 <= i < made.len() ==> is_within(#[trigger] made[i], namespace)
                    && names_its_object(made[i])
        }),
{
    if let StepView::Ask(current, request) = first_step(service, ctx) {
        lemma_within_from(current, request, replies, ctx);
    }
}

proof fn lemma_within_from(
    current: ReconciliationView,
    request: RequestView,
    replies: Seq<ReplyView>,
    ctx: DataView,
)
    requires
        is_within(request, current.plan.namespace),
        names_its_object(request),
    ensures
        ({
            let made = requests(StepView::Ask(current, request), replies, ctx);
            forall|i: int|
                0 <= i < made.len() ==> is_within(#[trigger] made[i], current.plan.namespace)
                    && names_its_object(made[i])
        }),
    decreases replies.len(),
{
    reveal_with_fuel(requests, 2);
    if replies.len() > 0 {
        if let Some(StepView::Ask(next, later)) = next_step(current, replies[0], ctx) {
            lemma_within_from(next, later, replies.skip(1), ctx);
            let made = requests(StepView::Ask(current, request), replies, ctx);
            let rest = requests(StepView::Ask(next, later), replies.skip(1), ctx);
            assert forall|i: int| 0 <= i < made.len() implies is_within(
                #[trigger] made[i],
                current.plan.namespace,
            ) && names_its_object(made[i]) by {
                if i > 0 {
                    assert(made[i] == rest[i - 1]);
                }
            }
        }
    }
}

/// The key under which a node is registered reads back as the node key.
pub proof fn lemma_registered_key_reads_back(
    base_url: Seq<char>,
    nodekey: Seq<char>,
    user: Seq<char>,
)
    ensures
        register_request(base_url, nodekey, user).query[1].name == "key"@,
        after_first(register_request(base_url, nodekey, user).query[1].value, ':') == Some(nodekey),
{
    reveal_strlit("nodekey:");
    let prefix = "nodekey:"@.drop_last();
    let rest = seq![':'] + nodekey;
    assert("nodekey:"@ + nodekey == prefix + rest);
    assert(!prefix.contains(':'));
    lemma_after_first_skips_prefix(prefix, rest, ':');
    assert(rest.skip(1) == nodekey);
}

/// What a watch comes to on its events: the first decision other than to go on, if there is one.
pub open spec fn watch_result(events: Seq<WatchEventView>) -> WatchStepView
    decreases events.len(),
{
    if events.len() == 0 {
        WatchStepView::Continue
    } else {
        match decision(events[0]) {
            WatchStepView::Continue => watch_result(events.skip(1)),
            step => step,
        }
    }
}

/// Whether the event shows a pod that runs.
pub open spec fn shows_running(event: WatchEventView) -> bool {
    match event {
        WatchEventView::Modified(pod) | WatchEventView::Added(pod) => runs(pod),
        _ => false,
    }
}

/// The pod that the event shows.
pub open spec fn pod_of(event: WatchEventView) -> PodView {
    match event {
        WatchEventView::Modified(pod) => pod,
        WatchEventView::Added(pod) => pod,
        _ => arbitrary(),
    }
}

/// The watch asks the first pod that is seen to run, and ends in a timeout where it ends before.
pub proof fn lemma_first_running_pod_is_asked(events: Seq<WatchEventView>, last: int)
    requires
        0 <= last < events.len(),
        forall|i: int|
            0 <= i < last ==> !shows_running(#[trigger] events[i]) && !(events[i] is End),
    ensures
        shows_running(events[last]) ==> watch_result(events) == WatchStepView::Attach(
            status_command(pod_of(events[last]).name->0),
        ),
        events[last] is End ==> watch_result(events) == WatchStepView::Timeout,
    decreases last,
{
    if last > 0 {
        let rest = events.skip(1);
        assert forall|i: int| 0 <= i < last - 1 implies !shows_running(#[trigger] rest[i]) && !(
        rest[i] is End) by {
            assert(rest[i] == events[i + 1]);
        }
        assert(!shows_running(events[0]));
        lemma_first_running_pod_is_asked(rest, last - 1);
    }
}

} // verus!
