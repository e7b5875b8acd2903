//! Which node a pod runs.

use crate::error::{ReconcileError, ReconcileErrorView};
use crate::text::{after_first, lemma_after_first, opt_views, same, split_after, views};
use vstd::prelude::*;

verus! {

/// What a node knows of itself.
#[derive(Debug)]
pub struct LocalStatusSelf {
    /// The key of the node, behind a prefix and a colon.
    pub node_key: String,
}

/// The model of a [`LocalStatusSelf`].
#[verifier::ext_equal]
pub struct LocalStatusSelfView {
    pub node_key: Seq<char>,
}

impl View for LocalStatusSelf {
    type V = LocalStatusSelfView;

    open spec fn view(&self) -> LocalStatusSelfView {
        LocalStatusSelfView {
            node_key: self.node_key@,
        }
    }
}

/// The status that a node reports from inside its pod.
#[derive(Debug)]
pub struct LocalStatus {
    pub backend_state: String,
    /// Where the node asks to be authorized.
    pub auth_url: String,
    pub this_node: LocalStatusSelf,
}

/// The model of a [`LocalStatus`].
#[verifier::ext_equal]
pub struct LocalStatusView {
    pub backend_state: Seq<char>,
    pub auth_url: Seq<char>,
    pub this_node: LocalStatusSelfView,
}

impl View for LocalStatus {
    type V = LocalStatusView;

    open spec fn view(&self) -> LocalStatusView {
        LocalStatusView {
            backend_state: self.backend_state@,
            auth_url: self.auth_url@,
            this_node: self.this_node@,
        }
    }
}

/// A node, by its key.
#[derive(Debug)]
pub enum Identity {
    /// The node waits to be registered.
    NeedsLogin(String),
    /// The node is registered.
    Running(String),
}

/// The model of an [`Identity`].
#[verifier::ext_equal]
pub enum IdentityView {
    NeedsLogin(Seq<char>),
    Running(Seq<char>),
}

impl View for Identity {
    type V = IdentityView;

    open spec fn view(&self) -> IdentityView {
        match self {
            Identity::NeedsLogin(value) => IdentityView::NeedsLogin(value@),
            Identity::Running(value) => IdentityView::Running(value@),
        }
    }
}

/// What the `url` crate makes of a text that is to be an absolute URL: the error of `Url::parse`,
/// or else what `Url::path_segments` gives for the URL.
pub uninterp spec fn url_path_segments(text: Seq<char>) -> Result<
    Option<Seq<Seq<char>>>,
    url::ParseError,
>;

/// The model of path segments that come from the `url` crate.
pub open spec fn segments_view(
    segments: Result<Option<Vec<String>>, url::ParseError>,
) -> Result<Option<Seq<Seq<char>>>, url::ParseError> {
    match segments {
        Ok(segments) => Ok(opt_views(segments)),
        Err(error) => Err(error),
    }
}

/// `Url::parse` of the `url` crate, and `Url::path_segments` of what it returns, with each segment
/// as a string of its own. The result is a function of the text. Where there are path segments,
/// there is at least one, since they are what `str::split` gives.
#[verifier::external_body]
fn parse_path_segments(text: &str) -> (r: Result<Option<Vec<String>>, url::ParseError>)
    ensures
        segments_view(r) == url_path_segments(text@),
        r matches Ok(Some(segments)) ==> segments@.len() > 0,
{
    let url = url::Url::parse(text)?;
    Ok(url.path_segments().map(|segments| segments.map(String::from).collect()))
}

/// Whether there is a node key to be found in the path segments, unless they show an error: the
/// last of them has a colon.
pub open spec fn has_nodekey(
    segments: Result<Option<Seq<Seq<char>>>, url::ParseError>,
) -> bool {
    segments matches Ok(Some(segments)) ==> segments.len() > 0 && segments.last().contains(':')
}

/// The node key in the path segments of an authorization URL: what follows the first colon of the
/// last of them.
pub open spec fn nodekey_in(
    segments: Result<Option<Seq<Seq<char>>>, url::ParseError>,
) -> Result<Seq<char>, ReconcileErrorView> {
    match segments {
        Err(error) => Err(ReconcileErrorView::InvalidAuthUrl(error)),
        Ok(None) => Err(ReconcileErrorView::NoPathSegments),
        Ok(Some(segments)) => Ok(after_first(segments.last(), ':')->0),
    }
}

/// The node that the status speaks of, where its authorization URL has the path segments. `None`
/// where a node key has no colon.
pub open spec fn identity_in(
    status: LocalStatusView,
    segments: Result<Option<Seq<Seq<char>>>, url::ParseError>,
) -> Option<Result<IdentityView, ReconcileErrorView>> {
    if status.backend_state == "NeedsLogin"@ {
        if has_nodekey(segments) {
            match nodekey_in(segments) {
                Ok(nodekey) => Some(Ok(IdentityView::NeedsLogin(nodekey))),
                Err(error) => Some(Err(error)),
            }
        } else {
            None
        }
    } else if status.backend_state == "Running"@ {
        match after_first(status.this_node.node_key, ':') {
            Some(nodekey) => Some(Ok(IdentityView::Running(nodekey))),
            None => None,
        }
    } else {
        Some(Err(ReconcileErrorView::UnknownState(status.backend_state)))
    }
}

/// The node that the status speaks of.
pub open spec fn identity(status: LocalStatusView) -> Option<
    Result<IdentityView, ReconcileErrorView>,
> {
    identity_in(status, url_path_segments(status.auth_url))
}

/// The model of what [`identify_with`] returns.
pub open spec fn identity_view(r: Result<Identity, ReconcileError>) -> Result<
    IdentityView,
    ReconcileErrorView,
> {
    match r {
        Ok(identity) => Ok(identity@),
        Err(error) => Err(error@),
    }
}

/// The node key in the path segments of an authorization URL.
pub fn nodekey_of_segments(segments: Result<Option<Vec<String>>, url::ParseError>) -> (r: Result<
    String,
    ReconcileError,
>)
    requires
        has_nodekey(segments_view(segments)),
    ensures
        match r {
            Ok(nodekey) => nodekey_in(segments_view(segments)) == Ok::<
                Seq<char>,
                ReconcileErrorView,
            >(nodekey@),
            Err(error) => nodekey_in(segments_view(segments)) == Err::<
                Seq<char>,
                ReconcileErrorView,
            >(error@),
        },
{
    match segments {
        Err(error) => Err(ReconcileError::InvalidAuthUrl(error)),
        Ok(None) => Err(ReconcileError::NoPathSegments),
        Ok(Some(segments)) => {
            let last = &segments[segments.len() - 1];
            proof {
                assert(views(segments@).last() == last@);
                lemma_after_first(last@, ':');
            }
            Ok(split_after(last.as_str(), ':').unwrap())
        },
    }
}

/// Whether the status shows a node key, unless it shows an error, where its authorization URL has
/// the path segments.
fn shows_nodekey(
    status: &LocalStatus,
    segments: &Result<Option<Vec<String>>, url::ParseError>,
) -> (r: bool)
    ensures
        r == (identity_in(status@, segments_view(*segments)) is Some),
{
    if same(&status.backend_state, "NeedsLogin") {
        match segments {
            Ok(Some(segments)) => {
                if segments.len() == 0 {
                    return false;
                }
                let last = &segments[segments.len() - 1];
                proof {
                    assert(views(segments@).last() == last@);
                    lemma_after_first(last@, ':');
                }
                split_after(last.as_str(), ':').is_some()
            },
            _ => true,
        }
    } else if same(&status.backend_state, "Running") {
        split_after(status.this_node.node_key.as_str(), ':').is_some()
    } else {
        true
    }
}

/// The node that the status speaks of, where its authorization URL has the path segments. They
/// are not looked at unless the node needs a login. A node key has a colon.
pub fn identify_with(
    status: &LocalStatus,
    segments: Result<Option<Vec<String>>, url::ParseError>,
) -> (r: Result<Identity, ReconcileError>)
    requires
        identity_in(status@, segments_view(segments)) is Some,
    ensures
        identity_in(status@, segments_view(segments)) == Some(identity_view(r)),
{
    if same(&status.backend_state, "NeedsLogin") {
        match nodekey_of_segments(segments) {
            Ok(nodekey) => Ok(Identity::NeedsLogin(nodekey)),
            Err(error) => Err(error),
        }
    } else if same(&status.backend_state, "Running") {
        Ok(Identity::Running(split_after(status.this_node.node_key.as_str(), ':').unwrap()))
    } else {
        Err(ReconcileError::UnknownState(status.backend_state.clone()))
    }
}

/// The node that the status speaks of. A node that needs a login shows its key in the URL by
/// which it asks to be authorized. `None` where a node key has no colon.
pub fn identify(status: &LocalStatus) -> (r: Option<Result<Identity, ReconcileError>>)
    ensures
        match r {
            Some(found) => identity(status@) == Some(identity_view(found)),
            None => identity(status@) is None,
        },
{
    let segments = if same(&status.backend_state, "NeedsLogin") {
        parse_path_segments(status.auth_url.as_str())
    } else {
        Ok(None)
    };
    if shows_nodekey(status, &segments) {
        Some(identify_with(status, segments))
    } else {
        None
    }
}

} // verus!
