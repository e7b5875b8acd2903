use surge::context::{configure, default_headers, ConfigError, Environment, Setting, Var};

fn present(value: &str) -> Var {
    Var::Present(value.to_string())
}

fn environment() -> Environment {
    Environment {
        control_plane_url: present("https://hs.example.com"),
        control_plane_auth: present("token"),
        storage_class: present("fast"),
        default_user: Var::NotPresent,
        load_balancer_class: Var::NotPresent,
        tailscale_image: Var::NotPresent,
    }
}

#[test]
fn what_need_not_be_set_has_a_default() {
    let startup = configure(environment()).unwrap();
    assert_eq!(startup.authorization, "Bearer token");
    assert_eq!(startup.data.base_url, "https://hs.example.com");
    assert_eq!(startup.data.storage_class, "fast");
    assert_eq!(startup.data.default_user, None);
    assert_eq!(startup.data.load_balancer_class, "headscale");
    assert_eq!(startup.data.tailscale_image, "tailscale/tailscale:stable");
}

#[test]
fn what_is_set_is_taken() {
    let env = Environment {
        default_user: present("ops"),
        load_balancer_class: present("tailnet"),
        tailscale_image: present("tailscale:1"),
        ..environment()
    };
    let data = configure(env).unwrap().data;
    assert_eq!(data.default_user.as_deref(), Some("ops"));
    assert_eq!(data.load_balancer_class, "tailnet");
    assert_eq!(data.tailscale_image, "tailscale:1");
}

#[test]
fn what_must_be_set_is_missed_in_order() {
    let env = Environment {
        control_plane_url: Var::NotPresent,
        control_plane_auth: Var::NotPresent,
        ..environment()
    };
    assert_eq!(
        configure(env).unwrap_err(),
        ConfigError::Unreadable(Setting::ControlPlaneUrl)
    );
    let env = Environment { control_plane_auth: Var::NotUnicode, ..environment() };
    assert_eq!(
        configure(env).unwrap_err(),
        ConfigError::Unreadable(Setting::ControlPlaneAuth)
    );
    let env = Environment {
        storage_class: Var::NotPresent,
        default_user: Var::NotUnicode,
        ..environment()
    };
    assert_eq!(configure(env).unwrap_err(), ConfigError::Unreadable(Setting::StorageClass));
}

#[test]
fn what_is_set_must_be_unicode() {
    let env = Environment {
        default_user: Var::NotUnicode,
        tailscale_image: Var::NotUnicode,
        ..environment()
    };
    assert_eq!(configure(env).unwrap_err(), ConfigError::Invalid(Setting::DefaultUser));
    let env = Environment { load_balancer_class: Var::NotUnicode, ..environment() };
    assert_eq!(
        configure(env).unwrap_err(),
        ConfigError::Invalid(Setting::LoadBalancerClass)
    );
    let env = Environment { tailscale_image: Var::NotUnicode, ..environment() };
    assert_eq!(configure(env).unwrap_err(), ConfigError::Invalid(Setting::TailscaleImage));
}

#[test]
fn settings_are_named_by_their_variables() {
    assert_eq!(Setting::ControlPlaneUrl.variable(), "SURGE_CONTROL_PLANE_URL");
    assert_eq!(Setting::ControlPlaneAuth.variable(), "SURGE_CONTROL_PLANE_AUTH");
    assert_eq!(Setting::StorageClass.variable(), "SURGE_STORAGE_CLASS");
    assert_eq!(Setting::DefaultUser.variable(), "SURGE_DEFAULT_USER");
    assert_eq!(Setting::LoadBalancerClass.variable(), "SURGE_LOAD_BALANCER_CLASS");
    assert_eq!(Setting::TailscaleImage.variable(), "SURGE_TAILSCALE_IMAGE");
    assert_eq!(
        Setting::DefaultUser.invalid_message(),
        "SURGE_DEFAULT_USER is set but invalid"
    );
}

#[test]
fn the_token_is_kept_out_of_logs() {
    let headers = default_headers("Bearer token".to_string());
    assert_eq!(headers.len(), 2);
    assert_eq!(headers[0].name, "Authorization");
    assert_eq!(headers[0].value, "Bearer token");
    assert!(headers[0].sensitive);
    assert_eq!(headers[1].name, "Accept");
    assert_eq!(headers[1].value, "application/json");
    assert!(!headers[1].sensitive);
}
