//! What a reconciliation asks for, and the replies it gets.

use crate::api::{HttpRequest, HttpRequestView, Node, NodeView};
use crate::local_status::{LocalStatus, LocalStatusView};
use crate::objects::{
    Deployment, DeploymentView, PersistentVolumeClaim, PersistentVolumeClaimView, Service,
    ServiceView,
};
use crate::pod_watch::{PodWatch, PodWatchView};
use crate::text::views;
use vstd::prelude::*;

verus! {

/// The name under which the controller owns the fields that it sets.
pub const FIELD_MANAGER: &'static str = "surge.unrouted.uk";

/// Which object a server-side apply patches, and how.
#[derive(Debug)]
pub struct PatchTarget {
    pub namespace: String,
    pub name: String,
    pub field_manager: String,
    /// Whether to take over fields that others own.
    pub force: bool,
}

/// The model of a [`PatchTarget`].
#[verifier::ext_equal]
pub struct PatchTargetView {
    pub namespace: Seq<char>,
    pub name: Seq<char>,
    pub field_manager: Seq<char>,
    pub force: bool,
}

impl View for PatchTarget {
    type V = PatchTargetView;

    open spec fn view(&self) -> PatchTargetView {
        PatchTargetView {
            namespace: self.namespace@,
            name: self.name@,
            field_manager: self.field_manager@,
            force: self.force,
        }
    }
}

/// What a reconciliation asks of the cluster or of the control plane.
#[derive(Debug)]
pub enum Request {
    PatchClaim { target: PatchTarget, claim: PersistentVolumeClaim },
    PatchDeployment { target: PatchTarget, deployment: Deployment },
    /// Wait for a pod that runs, and ask its node for its status.
    AwaitStatus(PodWatch),
    ListMachines(HttpRequest),
    RegisterNode(HttpRequest),
    RenameNode(HttpRequest),
    ChangeUser(HttpRequest),
    PatchService { target: PatchTarget, service: Service },
    /// Patch the status of the service only.
    PatchServiceStatus { target: PatchTarget, service: Service },
}

/// The model of a [`Request`].
#[verifier::ext_equal]
pub enum RequestView {
    PatchClaim { target: PatchTargetView, claim: PersistentVolumeClaimView },
    PatchDeployment { target: PatchTargetView, deployment: DeploymentView },
    AwaitStatus(PodWatchView),
    ListMachines(HttpRequestView),
    RegisterNode(HttpRequestView),
    RenameNode(HttpRequestView),
    ChangeUser(HttpRequestView),
    PatchService { target: PatchTargetView, service: ServiceView },
    PatchServiceStatus { target: PatchTargetView, service: ServiceView },
}

impl View for Request {
    type V = RequestView;

    open spec fn view(&self) -> RequestView {
        match self {
            Request::PatchClaim { target, claim } => RequestView::PatchClaim {
                target: target@,
                claim: claim@,
            },
            Request::PatchDeployment { target, deployment } => RequestView::PatchDeployment {
                target: target@,
                deployment: deployment@,
            },
            Request::AwaitStatus(value) => RequestView::AwaitStatus(value@),
            Request::ListMachines(value) => RequestView::ListMachines(value@),
            Request::RegisterNode(value) => RequestView::RegisterNode(value@),
            Request::RenameNode(value) => RequestView::RenameNode(value@),
            Request::ChangeUser(value) => RequestView::ChangeUser(value@),
            Request::PatchService { target, service } => RequestView::PatchService {
                target: target@,
                service: service@,
            },
            Request::PatchServiceStatus { target, service } => RequestView::PatchServiceStatus {
                target: target@,
                service: service@,
            },
        }
    }
}

/// The reply to a [`Request`].
#[derive(Debug)]
pub enum Reply {
    /// The object has been patched.
    Patched,
    /// The status of the node.
    Status(LocalStatus),
    /// No pod has run in time.
    Timeout,
    /// The machines that the control plane knows.
    Machines(Vec<Node>),
    /// The machine that the request was about.
    Machine(Node),
    /// The request has been refused, or could not be made.
    Failed,
}

/// The model of a [`Reply`].
#[verifier::ext_equal]
pub enum ReplyView {
    Patched,
    Status(LocalStatusView),
    Timeout,
    Machines(Seq<NodeView>),
    Machine(NodeView),
    Failed,
}

impl View for Reply {
    type V = ReplyView;

    open spec fn view(&self) -> ReplyView {
        match self {
            Reply::Patched => ReplyView::Patched,
            Reply::Status(value) => ReplyView::Status(value@),
            Reply::Timeout => ReplyView::Timeout,
            Reply::Machines(value) => ReplyView::Machines(views(value@)),
            Reply::Machine(value) => ReplyView::Machine(value@),
            Reply::Failed => ReplyView::Failed,
        }
    }
}

/// The target of a patch to an object of the controller.
pub open spec fn target_of(namespace: Seq<char>, name: Seq<char>, force: bool) -> PatchTargetView {
    PatchTargetView { namespace, name, field_manager: FIELD_MANAGER@, force }
}

/// The target of a patch to an object of the controller.
pub fn target(namespace: &str, name: &str, force: bool) -> (r: PatchTarget)
    ensures
        r@ == target_of(namespace@, name@, force),
{
    PatchTarget {
        namespace: namespace.to_owned(),
        name: name.to_owned(),
        field_manager: FIELD_MANAGER.to_owned(),
        force,
    }
}

} // verus!
