//! What holds of the settings of the controller, and of what it reports.

use crate::context::{
    headers, settings, value_or, variable, ConfigError, EnvironmentView, Setting, StartupView,
    VarView, CONCURRENCY, DEBOUNCE_SECS,
};
use crate::error::{message, report, ReconcileErrorView};
use crate::reconcile::{FINALIZER, REQUEUE_SECS};
use vstd::prelude::*;

verus! {

/// The variables that must be set, in the order in which they are read.
pub open spec fn required_settings(env: EnvironmentView) -> Seq<(VarView, Setting)> {
    seq![
        (env.control_plane_url, Setting::ControlPlaneUrl),
        (env.control_plane_auth, Setting::ControlPlaneAuth),
        (env.storage_class, Setting::StorageClass),
    ]
}

/// The variables that need not be set, in the order in which they are read.
pub open spec fn optional_settings(env: EnvironmentView) -> Seq<(VarView, Setting)> {
    seq![
        (env.default_user, Setting::DefaultUser),
        (env.load_balancer_class, Setting::LoadBalancerClass),
        (env.tailscale_image, Setting::TailscaleImage),
    ]
}

/// The controller starts exactly where the control plane, its token and the storage class can be
/// read, and no other variable is set to something that is not Unicode.
pub proof fn lemma_when_the_controller_starts(env: EnvironmentView)
    ensures
        settings(env) is Ok <==> {
            &&& env.control_plane_url is Present
            &&& env.control_plane_auth is Present
            &&& env.storage_class is Present
            &&& !(env.default_user is NotUnicode)
            &&& !(env.load_balancer_class is NotUnicode)
            &&& !(env.tailscale_image is NotUnicode)
        },
{
}

/// The error names the first variable that cannot be used: of those that must be set first, and
/// then of the others.
pub proof fn lemma_first_bad_variable_is_the_error(env: EnvironmentView, i: int)
    requires
        0 <= i < 3,
    ensures
        ({
            let required = required_settings(env);
            let optional = optional_settings(env);
            &&& !(required[i].0 is Present) && (forall|j: int|
                0 <= j < i ==> (#[trigger] required[j]).0 is Present) ==> settings(env) == Err::<
                StartupView,
                ConfigError,
            >(ConfigError::Unreadable(required[i].1))
            &&& (forall|j: int| 0 <= j < 3 ==> (#[trigger] required[j]).0 is Present)
                && optional[i].0 is NotUnicode && (forall|j: int|
                0 <= j < i ==> !((#[trigger] optional[j]).0 is NotUnicode)) ==> settings(env)
                == Err::<StartupView, ConfigError>(ConfigError::Invalid(optional[i].1))
        }),
{
    let required = required_settings(env);
    let optional = optional_settings(env);
    assert(required[0].0 == env.control_plane_url);
    assert(required[1].0 == env.control_plane_auth);
    assert(required[2].0 == env.storage_class);
    assert(optional[0].0 == env.default_user);
    assert(optional[1].0 == env.load_balancer_class);
    assert(optional[2].0 == env.tailscale_image);
}

/// A variable that is set gives its setting as it is.
pub proof fn lemma_variables_give_the_settings(env: EnvironmentView, startup: StartupView)
    requires
        settings(env) == Ok::<StartupView, ConfigError>(startup),
    ensures
        env.control_plane_url == VarView::Present(startup.data.base_url),
        env.storage_class == VarView::Present(startup.data.storage_class),
        env.control_plane_auth matches VarView::Present(token) ==> startup.authorization
            == "Bearer "@ + token,
        env.default_user matches VarView::Present(user) ==> startup.data.default_user == Some(user),
        env.load_balancer_class matches VarView::Present(class) ==> startup.data.load_balancer_class
            == class,
        env.tailscale_image matches VarView::Present(image) ==> startup.data.tailscale_image
            == image,
{
}

/// Without the variables that need not be set, there is no default user, the class is that of
/// headscale, and the image is the stable one of the proxy.
pub proof fn lemma_defaults(env: EnvironmentView, startup: StartupView)
    requires
        settings(env) == Ok::<StartupView, ConfigError>(startup),
    ensures
        env.default_user is NotPresent ==> startup.data.default_user is None,
        env.load_balancer_class is NotPresent ==> startup.data.load_balancer_class == "headscale"@,
        env.tailscale_image is NotPresent ==> startup.data.tailscale_image
            == "tailscale/tailscale:stable"@,
{
}

/// A variable gives its value where it is set, and the default only where it is not.
pub proof fn lemma_value_or(value: Seq<char>, absent: Seq<char>)
    ensures
        value_or(VarView::Present(value), absent) == value,
        value_or(VarView::NotPresent, absent) == absent,
{
}

/// The name of each variable.
pub proof fn lemma_variable_names()
    ensures
        variable(Setting::ControlPlaneUrl) == "SURGE_CONTROL_PLANE_URL"@,
        variable(Setting::ControlPlaneAuth) == "SURGE_CONTROL_PLANE_AUTH"@,
        variable(Setting::StorageClass) == "SURGE_STORAGE_CLASS"@,
        variable(Setting::DefaultUser) == "SURGE_DEFAULT_USER"@,
        variable(Setting::LoadBalancerClass) == "SURGE_LOAD_BALANCER_CLASS"@,
        variable(Setting::TailscaleImage) == "SURGE_TAILSCALE_IMAGE"@,
{
}

/// Every request to the control plane carries the authorization as it is, kept out of logs, and
/// asks for JSON.
pub proof fn lemma_headers(authorization: Seq<char>)
    ensures
        ({
            let headers = headers(authorization);
            &&& headers.len() == 2
            &&& headers[0].name == "Authorization"@
            &&& headers[0].value == authorization
            &&& headers[0].sensitive
            &&& headers[1].name == "Accept"@
            &&& headers[1].value == "application/json"@
            &&& !headers[1].sensitive
        }),
{
}

/// Two reconciliations run at once at most, changes are gathered for five seconds, and a service is
/// reconciled again after five minutes. A deleted service is kept by the finalizer of the
/// controller.
pub proof fn lemma_limits()
    ensures
        CONCURRENCY == 2,
        DEBOUNCE_SECS == 5,
        REQUEUE_SECS == 300,
        FINALIZER@ == "surge.unrouted.uk/node-cleanup"@,
{
}

/// What is reported of a service that lacks something.
pub proof fn lemma_messages_of_missing_fields()
    ensures
        message(ReconcileErrorView::MissingSpec) == Some("Missing object key .spec"@),
        message(ReconcileErrorView::MissingName) == Some("Missing object key .metadata.name"@),
        message(ReconcileErrorView::MissingNamespace) == Some(
            "Missing object key .metadata.namespace"@,
        ),
        message(ReconcileErrorView::MissingUid) == Some("Missing object key .spec"@),
        message(ReconcileErrorView::MissingClusterIp) == Some(
            "Missing object key .spec.clusterIP"@,
        ),
        message(ReconcileErrorView::MissingUser) == Some("Must set surge.unrouted.uk/user"@),
{
}

/// What is reported of a node: the message holds the node key, or the state, that it is about.
pub proof fn lemma_messages_about_nodes(text: Seq<char>, error: url::ParseError)
    ensures
        message(ReconcileErrorView::AnnotatedNodeMissing(text)) == Some(
            "Could not find node '"@ + text
                + "' in control plane, but thats what tunnel is annotated as"@,
        ),
        message(ReconcileErrorView::RunningNodeMissing(text)) == Some(
            "Could not find node '"@ + text
                + "' in control plane, but node is in 'Running' state. Bailing for now"@,
        ),
        message(ReconcileErrorView::UnknownState(text)) == Some("Unknown node state: "@ + text),
        message(ReconcileErrorView::InvalidAuthUrl(error)) == Some("Invalid AuthURL"@),
        message(ReconcileErrorView::NoPathSegments) == Some("AuthURL has no path segments"@),
        message(ReconcileErrorView::Timeout) == Some("Timeout"@),
{
}

/// Every error but that of a failed request has a message of its own.
pub proof fn lemma_only_requests_report_themselves(error: ReconcileErrorView)
    ensures
        message(error) is None <==> error == ReconcileErrorView::RequestFailed,
{
}

/// A report without sources is the message. Each source adds itself behind a colon, and ends the
/// line.
pub proof fn lemma_report_of_a_source(text: Seq<char>, source: Seq<char>)
    ensures
        report(text, seq![]) == text,
        report(text, seq![source]) == text + ": "@ + source + "\n"@,
{
    reveal_with_fuel(report, 2);
    assert(seq![source].drop_last() == Seq::<Seq<char>>::empty());
}

/// The sources are reported in their order: those that come first stand first.
pub proof fn lemma_report_keeps_the_order(
    text: Seq<char>,
    sources: Seq<Seq<char>>,
    later: Seq<Seq<char>>,
)
    ensures
        report(text, sources + later) == report(report(text, sources), later),
    decreases later.len(),
{
    if later.len() == 0 {
        assert(sources + later == sources);
    } else {
        lemma_report_keeps_the_order(text, sources, later.drop_last());
        assert((sources + later).drop_last() == sources + later.drop_last());
    }
}

} // verus!
