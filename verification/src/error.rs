//! Why a reconciliation fails, and what is reported of it.

use crate::text::{opt_view, views};
use vstd::prelude::*;

verus! {

/// The error of the `url` crate's parser.
#[verifier::external_type_specification]
#[verifier::external_body]
pub struct ExParseError(url::ParseError);

/// Why a reconciliation ends before its time.
#[derive(Debug)]
pub enum ReconcileError {
    MissingSpec,
    MissingName,
    MissingNamespace,
    MissingUid,
    MissingClusterIp,
    /// Neither the service nor the configuration names a user.
    MissingUser,
    /// The control plane does not know the node key that the service is annotated with.
    AnnotatedNodeMissing(String),
    /// The control plane does not know the node key of a node that runs.
    RunningNodeMissing(String),
    /// The node is in a state that the controller does not know.
    UnknownState(String),
    /// The URL by which the node asks to be authorized cannot be parsed.
    InvalidAuthUrl(url::ParseError),
    /// The URL by which the node asks to be authorized has no path segments.
    NoPathSegments,
    /// No pod of the service has run in time.
    Timeout,
    /// The cluster or the control plane has refused a request, or could not be reached.
    RequestFailed,
}

/// The model of a [`ReconcileError`].
#[verifier::ext_equal]
pub enum ReconcileErrorView {
    MissingSpec,
    MissingName,
    MissingNamespace,
    MissingUid,
    MissingClusterIp,
    MissingUser,
    AnnotatedNodeMissing(Seq<char>),
    RunningNodeMissing(Seq<char>),
    UnknownState(Seq<char>),
    InvalidAuthUrl(url::ParseError),
    NoPathSegments,
    Timeout,
    RequestFailed,
}

impl View for ReconcileError {
    type V = ReconcileErrorView;

    open spec fn view(&self) -> ReconcileErrorView {
        match self {
            ReconcileError::MissingSpec => ReconcileErrorView::MissingSpec,
            ReconcileError::MissingName => ReconcileErrorView::MissingName,
            ReconcileError::MissingNamespace => ReconcileErrorView::MissingNamespace,
            ReconcileError::MissingUid => ReconcileErrorView::MissingUid,
            ReconcileError::MissingClusterIp => ReconcileErrorView::MissingClusterIp,
            ReconcileError::MissingUser => ReconcileErrorView::MissingUser,
            ReconcileError::AnnotatedNodeMissing(value) => ReconcileErrorView::AnnotatedNodeMissing(value@),
            ReconcileError::RunningNodeMissing(value) => ReconcileErrorView::RunningNodeMissing(value@),
            ReconcileError::UnknownState(value) => ReconcileErrorView::UnknownState(value@),
            ReconcileError::InvalidAuthUrl(value) => ReconcileErrorView::InvalidAuthUrl(*value),
            ReconcileError::NoPathSegments => ReconcileErrorView::NoPathSegments,
            ReconcileError::Timeout => ReconcileErrorView::Timeout,
            ReconcileError::RequestFailed => ReconcileErrorView::RequestFailed,
        }
    }
}

/// What to report of the error, and `None` where the failed request has its own report.
pub open spec fn message(error: ReconcileErrorView) -> Option<Seq<char>> {
    match error {
        ReconcileErrorView::MissingSpec => Some("Missing object key .spec"@),
        ReconcileErrorView::MissingName => Some("Missing object key .metadata.name"@),
        ReconcileErrorView::MissingNamespace => Some("Missing object key .metadata.namespace"@),
        ReconcileErrorView::MissingUid => Some("Missing object key .spec"@),
        ReconcileErrorView::MissingClusterIp => Some("Missing object key .spec.clusterIP"@),
        ReconcileErrorView::MissingUser => Some("Must set surge.unrouted.uk/user"@),
        ReconcileErrorView::AnnotatedNodeMissing(nodekey) => Some(
            "Could not find node '"@ + nodekey
                + "' in control plane, but thats what tunnel is annotated as"@,
        ),
        ReconcileErrorView::RunningNodeMissing(nodekey) => Some(
            "Could not find node '"@ + nodekey
                + "' in control plane, but node is in 'Running' state. Bailing for now"@,
        ),
        ReconcileErrorView::UnknownState(state) => Some("Unknown node state: "@ + state),
        ReconcileErrorView::InvalidAuthUrl(_) => Some("Invalid AuthURL"@),
        ReconcileErrorView::NoPathSegments => Some("AuthURL has no path segments"@),
        ReconcileErrorView::Timeout => Some("Timeout"@),
        ReconcileErrorView::RequestFailed => None,
    }
}

impl ReconcileError {
    /// What to report of the error, and `None` where the failed request has its own report.
    pub fn message(&self) -> (r: Option<String>)
        ensures
            opt_view(r) == message(self@),
    {
        match self {
            ReconcileError::MissingSpec => Some("Missing object key .spec".to_owned()),
            ReconcileError::MissingName => Some("Missing object key .metadata.name".to_owned()),
            ReconcileError::MissingNamespace => Some(
                "Missing object key .metadata.namespace".to_owned(),
            ),
            ReconcileError::MissingUid => Some("Missing object key .spec".to_owned()),
            ReconcileError::MissingClusterIp => Some("Missing object key .spec.clusterIP".to_owned()),
            ReconcileError::MissingUser => Some("Must set surge.unrouted.uk/user".to_owned()),
            ReconcileError::AnnotatedNodeMissing(nodekey) => Some(
                "Could not find node '".to_owned().concat(nodekey.as_str()).concat(
                    "' in control plane, but thats what tunnel is annotated as",
                ),
            ),
            ReconcileError::RunningNodeMissing(nodekey) => Some(
                "Could not find node '".to_owned().concat(nodekey.as_str()).concat(
                    "' in control plane, but node is in 'Running' state. Bailing for now",
                ),
            ),
            ReconcileError::UnknownState(state) => Some(
                "Unknown node state: ".to_owned().concat(state.as_str()),
            ),
            ReconcileError::InvalidAuthUrl(_) => Some("Invalid AuthURL".to_owned()),
            ReconcileError::NoPathSegments => Some("AuthURL has no path segments".to_owned()),
            ReconcileError::Timeout => Some("Timeout".to_owned()),
            ReconcileError::RequestFailed => None,
        }
    }
}

/// A message with each of its sources, from the nearest to the root, behind a colon and on a line
/// that it ends.
pub open spec fn report(message: Seq<char>, sources: Seq<Seq<char>>) -> Seq<char>
    decreases sources.len(),
{
    if sources.len() == 0 {
        message
    } else {
        report(message, sources.drop_last()) + ": "@ + sources.last() + "\n"@
    }
}

/// The report of a failed reconciliation: the message of the error, then those of its sources,
/// from the nearest to the root.
pub fn error_report(message: String, sources: &Vec<String>) -> (r: String)
    ensures
        r@ == report(message@, views(sources@)),
{
    let ghost all = views(sources@);
    let ghost start = message@;
    let mut out = message;
    let mut i: usize = 0;
    assert(all.take(0) == Seq::<Seq<char>>::empty());
    while i < sources.len()
        invariant
            i <= sources@.len(),
            all == views(sources@),
            out@ == report(start, all.take(i as int)),
        decreases sources@.len() - i,
    {
        assert(all.take(i + 1).drop_last() == all.take(i as int));
        out.append(": ");
        out.append(sources[i].as_str());
        out.append("\n");
        i = i + 1;
    }
    assert(all.take(i as int) == all);
    out
}

} // verus!
