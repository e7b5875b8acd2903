use surge::pod_watch::{
    get_pod_metadata, is_well_formed, pod_watch, Pod, PodStatus, WatchEvent, WatchStep,
};

fn pod(name: Option<&str>, phase: Option<&str>) -> Pod {
    Pod {
        name: name.map(|name| name.to_string()),
        status: Some(PodStatus { phase: phase.map(|phase| phase.to_string()) }),
    }
}

#[test]
fn the_watch_selects_by_the_service_label() {
    let watch = pod_watch("prod", "web");
    assert_eq!(watch.namespace, "prod");
    assert_eq!(watch.label_selector, "surge.unrouted.uk/service=web");
    assert_eq!(watch.timeout_secs, 60);
    assert_eq!(watch.resource_version, "0");
}

#[test]
fn a_pod_that_runs_is_asked() {
    for event in [
        WatchEvent::Modified(pod(Some("web-1"), Some("Running"))),
        WatchEvent::Added(pod(Some("web-1"), Some("Running"))),
    ] {
        match get_pod_metadata(event) {
            WatchStep::Attach(exec) => {
                assert_eq!(exec.pod, "web-1");
                assert_eq!(exec.container, "tailscale");
                assert!(!exec.stdin);
                assert!(!exec.stderr);
                assert_eq!(
                    exec.command,
                    ["tailscale", "--socket", "/tmp/tailscaled.sock", "status", "--json"]
                );
            }
            step => panic!("{:?}", step),
        }
    }
}

#[test]
fn other_events_are_passed_over() {
    for event in [
        WatchEvent::Added(pod(Some("web-1"), Some("Pending"))),
        WatchEvent::Modified(pod(None, None)),
        WatchEvent::Other,
    ] {
        assert!(matches!(get_pod_metadata(event), WatchStep::Continue));
    }
}

#[test]
fn the_end_of_the_watch_is_a_timeout() {
    assert!(matches!(get_pod_metadata(WatchEvent::End), WatchStep::Timeout));
}

#[test]
fn a_pod_needs_a_status_and_a_name_once_it_runs() {
    assert!(is_well_formed(&WatchEvent::Added(pod(None, Some("Pending")))));
    assert!(!is_well_formed(&WatchEvent::Added(pod(None, Some("Running")))));
    let bare = Pod { name: Some("web-1".to_string()), status: None };
    assert!(!is_well_formed(&WatchEvent::Modified(bare)));
    assert!(is_well_formed(&WatchEvent::End));
}

#[test]
fn the_first_pod_that_runs_is_asked() {
    let events = vec![
        WatchEvent::Added(pod(Some("web-0"), Some("Pending"))),
        WatchEvent::Other,
        WatchEvent::Modified(pod(Some("web-1"), Some("Running"))),
        WatchEvent::Modified(pod(Some("web-2"), Some("Running"))),
        WatchEvent::End,
    ];
    let mut steps = events.into_iter().map(get_pod_metadata);
    let first = steps.find(|step| !matches!(step, WatchStep::Continue));
    assert!(matches!(first, Some(WatchStep::Attach(exec)) if exec.pod == "web-1"));
}
