//! Waiting for the proxy pod of a service, to ask its node for its status.

use crate::resources::{PROXY_CONTAINER, SERVICE_LABEL};
use crate::text::{opt_view, same, views};
use vstd::prelude::*;

verus! {

/// A watch for pods.
#[derive(Debug)]
pub struct PodWatch {
    pub namespace: String,
    pub label_selector: String,
    /// After how many seconds the cluster ends the watch.
    pub timeout_secs: u32,
    /// Where the watch starts.
    pub resource_version: String,
}

/// The model of a [`PodWatch`].
#[verifier::ext_equal]
pub struct PodWatchView {
    pub namespace: Seq<char>,
    pub label_selector: Seq<char>,
    pub timeout_secs: u32,
    pub resource_version: Seq<char>,
}

impl View for PodWatch {
    type V = PodWatchView;

    open spec fn view(&self) -> PodWatchView {
        PodWatchView {
            namespace: self.namespace@,
            label_selector: self.label_selector@,
            timeout_secs: self.timeout_secs,
            resource_version: self.resource_version@,
        }
    }
}

/// The status of a pod.
#[derive(Debug)]
pub struct PodStatus {
    pub phase: Option<String>,
}

/// The model of a [`PodStatus`].
#[verifier::ext_equal]
pub struct PodStatusView {
    pub phase: Option<Seq<char>>,
}

impl View for PodStatus {
    type V = PodStatusView;

    open spec fn view(&self) -> PodStatusView {
        PodStatusView {
            phase: opt_view(self.phase),
        }
    }
}

/// A pod, as the watch reports it.
#[derive(Debug)]
pub struct Pod {
    pub name: Option<String>,
    pub status: Option<PodStatus>,
}

/// The model of a [`Pod`].
#[verifier::ext_equal]
pub struct PodView {
    pub name: Option<Seq<char>>,
    pub status: Option<PodStatusView>,
}

impl View for Pod {
    type V = PodView;

    open spec fn view(&self) -> PodView {
        PodView {
            name: opt_view(self.name),
            status: opt_view(self.status),
        }
    }
}

/// An event of the watch.
#[derive(Debug)]
pub enum WatchEvent {
    Modified(Pod),
    Added(Pod),
    /// An event of any other kind.
    Other,
    /// The watch has ended.
    End,
}

/// The model of a [`WatchEvent`].
#[verifier::ext_equal]
pub enum WatchEventView {
    Modified(PodView),
    Added(PodView),
    Other,
    End,
}

impl View for WatchEvent {
    type V = WatchEventView;

    open spec fn view(&self) -> WatchEventView {
        match self {
            WatchEvent::Modified(value) => WatchEventView::Modified(value@),
            WatchEvent::Added(value) => WatchEventView::Added(value@),
            WatchEvent::Other => WatchEventView::Other,
            WatchEvent::End => WatchEventView::End,
        }
    }
}

/// A command to run in a container of a pod. Its output is what matters.
#[derive(Debug)]
pub struct Exec {
    pub pod: String,
    pub container: String,
    pub stdin: bool,
    pub stderr: bool,
    pub command: Vec<String>,
}

/// The model of an [`Exec`].
#[verifier::ext_equal]
pub struct ExecView {
    pub pod: Seq<char>,
    pub container: Seq<char>,
    pub stdin: bool,
    pub stderr: bool,
    pub command: Seq<Seq<char>>,
}

impl View for Exec {
    type V = ExecView;

    open spec fn view(&self) -> ExecView {
        ExecView {
            pod: self.pod@,
            container: self.container@,
            stdin: self.stdin,
            stderr: self.stderr,
            command: views(self.command@),
        }
    }
}

/// What to do on an event of the watch.
#[derive(Debug)]
pub enum WatchStep {
    /// Run the command. Its output is the status of the node.
    Attach(Exec),
    /// Wait for the next event.
    Continue,
    /// Give up.
    Timeout,
}

/// The model of a [`WatchStep`].
#[verifier::ext_equal]
pub enum WatchStepView {
    Attach(ExecView),
    Continue,
    Timeout,
}

impl View for WatchStep {
    type V = WatchStepView;

    open spec fn view(&self) -> WatchStepView {
        match self {
            WatchStep::Attach(value) => WatchStepView::Attach(value@),
            WatchStep::Continue => WatchStepView::Continue,
            WatchStep::Timeout => WatchStepView::Timeout,
        }
    }
}

/// The watch for the pods of the service with the name.
pub open spec fn watch_of(namespace: Seq<char>, service: Seq<char>) -> PodWatchView {
    PodWatchView {
        namespace,
        label_selector: SERVICE_LABEL@ + "="@ + service,
        timeout_secs: 60,
        resource_version: "0"@,
    }
}

/// The watch for the pods of the service with the name.
pub fn pod_watch(namespace: &str, service: &str) -> (r: PodWatch)
    ensures
        r@ == watch_of(namespace@, service@),
{
    PodWatch {
        namespace: namespace.to_owned(),
        label_selector: SERVICE_LABEL.to_owned().concat("=").concat(service),
        timeout_secs: 60,
        resource_version: "0".to_owned(),
    }
}

/// Whether the pod runs.
pub open spec fn runs(pod: PodView) -> bool {
    pod.status matches Some(status) && status.phase == Some("Running"@)
}

/// Whether the event is one that a cluster sends: a pod that has changed has a status, and one
/// that runs has a name.
pub open spec fn well_formed(event: WatchEventView) -> bool {
    match event {
        WatchEventView::Modified(pod) | WatchEventView::Added(pod) => {
            &&& pod.status is Some
            &&& runs(pod) ==> pod.name is Some
        },
        _ => true,
    }
}

/// How to ask the node in the pod with the name for its status.
pub open spec fn status_command(pod: Seq<char>) -> ExecView {
    ExecView {
        pod,
        container: PROXY_CONTAINER@,
        stdin: false,
        stderr: false,
        command: seq![
            "tailscale"@,
            "--socket"@,
            "/tmp/tailscaled.sock"@,
            "status"@,
            "--json"@,
        ],
    }
}

/// What to do on an event of the watch: the first pod that runs is asked, and the end of the
/// watch is a timeout.
pub open spec fn decision(event: WatchEventView) -> WatchStepView {
    match event {
        WatchEventView::Modified(pod) | WatchEventView::Added(pod) => if runs(pod) {
            WatchStepView::Attach(status_command(pod.name->0))
        } else {
            WatchStepView::Continue
        },
        WatchEventView::Other => WatchStepView::Continue,
        WatchEventView::End => WatchStepView::Timeout,
    }
}

fn is_running(pod: &Pod) -> (r: bool)
    ensures
        r == runs(pod@),
{
    match &pod.status {
        Some(status) => match &status.phase {
            Some(phase) => same(phase, "Running"),
            None => false,
        },
        None => false,
    }
}

/// Whether the event is one that a cluster sends: a pod that has changed has a status, and one
/// that runs has a name.
pub fn is_well_formed(event: &WatchEvent) -> (r: bool)
    ensures
        r == well_formed(event@),
{
    match event {
        WatchEvent::Modified(pod) | WatchEvent::Added(pod) => {
            pod.status.is_some() && (!is_running(pod) || pod.name.is_some())
        },
        _ => true,
    }
}

fn attach(pod: String) -> (r: Exec)
    ensures
        r@ == status_command(pod@),
{
    let r = Exec {
        pod,
        container: PROXY_CONTAINER.to_owned(),
        stdin: false,
        stderr: false,
        command: vec![
            "tailscale".to_owned(),
            "--socket".to_owned(),
            "/tmp/tailscaled.sock".to_owned(),
            "status".to_owned(),
            "--json".to_owned(),
        ],
    };
    assert(r@ =~~= status_command(pod@));
    r
}

/// What to do on an event of the watch for a pod that runs.
pub fn get_pod_metadata(event: WatchEvent) -> (r: WatchStep)
    requires
        well_formed(event@),
    ensures
        r@ == decision(event@),
{
    match event {
        WatchEvent::Modified(pod) | WatchEvent::Added(pod) => {
            if is_running(&pod) {
                WatchStep::Attach(attach(pod.name.unwrap()))
            } else {
                WatchStep::Continue
            }
        },
        WatchEvent::Other => WatchStep::Continue,
        WatchEvent::End => WatchStep::Timeout,
    }
}

} // verus!
