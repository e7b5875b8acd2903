//! What the controller is configured with.

use crate::text::{opt_view, views};
use vstd::prelude::*;

verus! {

/// How many reconciliations may run at the same time.
pub const CONCURRENCY: u16 = 2;

/// For how many seconds changes are gathered before a reconciliation.
pub const DEBOUNCE_SECS: u64 = 5;

/// What every reconciliation reads.
#[derive(Debug)]
pub struct Data {
    /// Where the control plane is reached.
    pub base_url: String,
    /// The user of a service that names none.
    pub default_user: Option<String>,
    /// The class of the services that the controller takes care of.
    pub load_balancer_class: String,
    /// The storage class of the volume claims.
    pub storage_class: String,
    /// The image of the proxy containers.
    pub tailscale_image: String,
}

/// The model of a [`Data`].
#[verifier::ext_equal]
pub struct DataView {
    pub base_url: Seq<char>,
    pub default_user: Option<Seq<char>>,
    pub load_balancer_class: Seq<char>,
    pub storage_class: Seq<char>,
    pub tailscale_image: Seq<char>,
}

impl View for Data {
    type V = DataView;

    open spec fn view(&self) -> DataView {
        DataView {
            base_url: self.base_url@,
            default_user: opt_view(self.default_user),
            load_balancer_class: self.load_balancer_class@,
            storage_class: self.storage_class@,
            tailscale_image: self.tailscale_image@,
        }
    }
}

/// An environment variable as it was found.
#[derive(Debug)]
pub enum Var {
    Present(String),
    NotPresent,
    /// Set, but not to Unicode.
    NotUnicode,
}

/// The model of a [`Var`].
#[verifier::ext_equal]
pub enum VarView {
    Present(Seq<char>),
    NotPresent,
    NotUnicode,
}

impl View for Var {
    type V = VarView;

    open spec fn view(&self) -> VarView {
        match self {
            Var::Present(value) => VarView::Present(value@),
            Var::NotPresent => VarView::NotPresent,
            Var::NotUnicode => VarView::NotUnicode,
        }
    }
}

/// The environment variables that configure the controller.
#[derive(Debug)]
pub struct Environment {
    pub control_plane_url: Var,
    pub control_plane_auth: Var,
    pub storage_class: Var,
    pub default_user: Var,
    pub load_balancer_class: Var,
    pub tailscale_image: Var,
}

/// The model of an [`Environment`].
#[verifier::ext_equal]
pub struct EnvironmentView {
    pub control_plane_url: VarView,
    pub control_plane_auth: VarView,
    pub storage_class: VarView,
    pub default_user: VarView,
    pub load_balancer_class: VarView,
    pub tailscale_image: VarView,
}

impl View for Environment {
    type V = EnvironmentView;

    open spec fn view(&self) -> EnvironmentView {
        EnvironmentView {
            control_plane_url: self.control_plane_url@,
            control_plane_auth: self.control_plane_auth@,
            storage_class: self.storage_class@,
            default_user: self.default_user@,
            load_balancer_class: self.load_balancer_class@,
            tailscale_image: self.tailscale_image@,
        }
    }
}

/// A setting of the controller.
#[derive(Debug, Clone, Copy, PartialEq, Eq, Structural)]
pub enum Setting {
    ControlPlaneUrl,
    ControlPlaneAuth,
    StorageClass,
    DefaultUser,
    LoadBalancerClass,
    TailscaleImage,
}

/// Why the controller cannot start.
#[derive(Debug, Clone, Copy, PartialEq, Eq, Structural)]
pub enum ConfigError {
    /// The variable must be set, and to Unicode, but is not.
    Unreadable(Setting),
    /// The variable need not be set, but is set to something that is not Unicode.
    Invalid(Setting),
}

/// What the environment variables configure.
#[derive(Debug)]
pub struct Startup {
    pub data: Data,
    /// The value of the authorization header.
    pub authorization: String,
}

/// The model of a [`Startup`].
#[verifier::ext_equal]
pub struct StartupView {
    pub data: DataView,
    pub authorization: Seq<char>,
}

impl View for Startup {
    type V = StartupView;

    open spec fn view(&self) -> StartupView {
        StartupView {
            data: self.data@,
            authorization: self.authorization@,
        }
    }
}

/// A header of a request to the control plane.
#[derive(Debug)]
pub struct Header {
    pub name: String,
    pub value: String,
    /// Whether the value is to be kept out of logs.
    pub sensitive: bool,
}

/// The model of a [`Header`].
#[verifier::ext_equal]
pub struct HeaderView {
    pub name: Seq<char>,
    pub value: Seq<char>,
    pub sensitive: bool,
}

impl View for Header {
    type V = HeaderView;

    open spec fn view(&self) -> HeaderView {
        HeaderView {
            name: self.name@,
            value: self.value@,
            sensitive: self.sensitive,
        }
    }
}

/// The name of the environment variable that holds the setting.
pub open spec fn variable(setting: Setting) -> Seq<char> {
    match setting {
        Setting::ControlPlaneUrl => "SURGE_CONTROL_PLANE_URL"@,
        Setting::ControlPlaneAuth => "SURGE_CONTROL_PLANE_AUTH"@,
        Setting::StorageClass => "SURGE_STORAGE_CLASS"@,
        Setting::DefaultUser => "SURGE_DEFAULT_USER"@,
        Setting::LoadBalancerClass => "SURGE_LOAD_BALANCER_CLASS"@,
        Setting::TailscaleImage => "SURGE_TAILSCALE_IMAGE"@,
    }
}

impl Setting {
    /// The name of the environment variable that holds the setting.
    pub fn variable(self) -> (r: String)
        ensures
            r@ == variable(self),
    {
        match self {
            Setting::ControlPlaneUrl => "SURGE_CONTROL_PLANE_URL".to_owned(),
            Setting::ControlPlaneAuth => "SURGE_CONTROL_PLANE_AUTH".to_owned(),
            Setting::StorageClass => "SURGE_STORAGE_CLASS".to_owned(),
            Setting::DefaultUser => "SURGE_DEFAULT_USER".to_owned(),
            Setting::LoadBalancerClass => "SURGE_LOAD_BALANCER_CLASS".to_owned(),
            Setting::TailscaleImage => "SURGE_TAILSCALE_IMAGE".to_owned(),
        }
    }

    /// What to report of a setting whose variable is set to something that is not Unicode.
    pub fn invalid_message(self) -> (r: String)
        ensures
            r@ == variable(self) + " is set but invalid"@,
    {
        self.variable().concat(" is set but invalid")
    }
}

/// The value of a variable, and `absent` where it is not set.
pub open spec fn value_or(var: VarView, absent: Seq<char>) -> Seq<char> {
    match var {
        VarView::Present(value) => value,
        _ => absent,
    }
}

/// The settings that the variables hold. The first unreadable one of those without a default
/// decides the error, and else the first invalid one of the others.
pub open spec fn settings(env: EnvironmentView) -> Result<StartupView, ConfigError> {
    if !(env.control_plane_url is Present) {
        Err(ConfigError::Unreadable(Setting::ControlPlaneUrl))
    } else if !(env.control_plane_auth is Present) {
        Err(ConfigError::Unreadable(Setting::ControlPlaneAuth))
    } else if !(env.storage_class is Present) {
        Err(ConfigError::Unreadable(Setting::StorageClass))
    } else if env.default_user is NotUnicode {
        Err(ConfigError::Invalid(Setting::DefaultUser))
    } else if env.load_balancer_class is NotUnicode {
        Err(ConfigError::Invalid(Setting::LoadBalancerClass))
    } else if env.tailscale_image is NotUnicode {
        Err(ConfigError::Invalid(Setting::TailscaleImage))
    } else {
        Ok(
            StartupView {
                data: DataView {
                    base_url: env.control_plane_url->Present_0,
                    default_user: match env.default_user {
                        VarView::Present(user) => Some(user),
                        _ => None,
                    },
                    load_balancer_class: value_or(env.load_balancer_class, "headscale"@),
                    storage_class: env.storage_class->Present_0,
                    tailscale_image: value_or(env.tailscale_image, "tailscale/tailscale:stable"@),
                },
                authorization: "Bearer "@ + env.control_plane_auth->Present_0,
            },
        )
    }
}

/// The value of a variable that must be set.
fn required(var: Var, setting: Setting) -> (r: Result<String, ConfigError>)
    ensures
        r is Ok <==> var is Present,
        r matches Ok(value) ==> var@ == VarView::Present(value@),
        r matches Err(error) ==> error == ConfigError::Unreadable(setting),
{
    match var {
        Var::Present(value) => Ok(value),
        _ => Err(ConfigError::Unreadable(setting)),
    }
}

/// The value of a variable that need not be set.
fn optional(var: Var, setting: Setting) -> (r: Result<Option<String>, ConfigError>)
    ensures
        r is Err <==> var is NotUnicode,
        r matches Ok(Some(value)) ==> var@ == VarView::Present(value@),
        r matches Ok(None) ==> var is NotPresent,
        r matches Err(error) ==> error == ConfigError::Invalid(setting),
{
    match var {
        Var::Present(value) => Ok(Some(value)),
        Var::NotPresent => Ok(None),
        Var::NotUnicode => Err(ConfigError::Invalid(setting)),
    }
}

/// The value, and `absent` where there is none.
fn or_default(value: Option<String>, absent: &str) -> (r: String)
    ensures
        r@ == (match value {
            Some(value) => value@,
            None => absent@,
        }),
{
    match value {
        Some(value) => value,
        None => absent.to_owned(),
    }
}

/// The settings that the variables hold.
pub fn configure(env: Environment) -> (r: Result<Startup, ConfigError>)
    ensures
        match r {
            Ok(startup) => settings(env@) == Ok::<StartupView, ConfigError>(startup@),
            Err(error) => settings(env@) == Err::<StartupView, ConfigError>(error),
        },
{
    let base_url = required(env.control_plane_url, Setting::ControlPlaneUrl)?;
    let token = required(env.control_plane_auth, Setting::ControlPlaneAuth)?;
    let storage_class = required(env.storage_class, Setting::StorageClass)?;
    let default_user = optional(env.default_user, Setting::DefaultUser)?;
    let load_balancer_class = optional(env.load_balancer_class, Setting::LoadBalancerClass)?;
    let tailscale_image = optional(env.tailscale_image, Setting::TailscaleImage)?;
    Ok(
        Startup {
            data: Data {
                base_url,
                default_user,
                load_balancer_class: or_default(load_balancer_class, "headscale"),
                storage_class,
                tailscale_image: or_default(tailscale_image, "tailscale/tailscale:stable"),
            },
            authorization: "Bearer ".to_owned().concat(token.as_str()),
        },
    )
}

/// The headers of every request to the control plane.
pub open spec fn headers(authorization: Seq<char>) -> Seq<HeaderView> {
    seq![
        HeaderView { name: "Authorization"@, value: authorization, sensitive: true },
        HeaderView { name: "Accept"@, value: "application/json"@, sensitive: false },
    ]
}

/// The headers of every request to the control plane.
pub fn default_headers(authorization: String) -> (r: Vec<Header>)
    ensures
        views(r@) == headers(authorization@),
{
    let r = vec![
        Header { name: "Authorization".to_owned(), value: authorization, sensitive: true },
        Header {
            name: "Accept".to_owned(),
            value: "application/json".to_owned(),
            sensitive: false,
        },
    ];
    assert(views(r@) =~= headers(authorization@));
    r
}

} // verus!
