use surge::error::ReconcileError;
use surge::local_status::{
    identify, identify_with, nodekey_of_segments, Identity, LocalStatus, LocalStatusSelf,
};

fn status(backend_state: &str, auth_url: &str, node_key: &str) -> LocalStatus {
    LocalStatus {
        backend_state: backend_state.to_string(),
        auth_url: auth_url.to_string(),
        this_node: LocalStatusSelf { node_key: node_key.to_string() },
    }
}

fn segments(texts: &[&str]) -> Result<Option<Vec<String>>, url::ParseError> {
    Ok(Some(texts.iter().map(|text| text.to_string()).collect()))
}

#[test]
fn a_node_that_needs_a_login_shows_its_key_in_the_url() {
    let found = identify(&status(
        "NeedsLogin",
        "https://hs.example.com/register/nodekey:abc?x=1#y",
        "",
    ));
    assert!(matches!(found, Some(Ok(Identity::NeedsLogin(key))) if key == "abc"));
}

#[test]
fn only_the_last_segment_holds_the_key() {
    let found = identify(&status("NeedsLogin", "https://hs.example.com/a:b/nodekey:c:d", ""));
    assert!(matches!(found, Some(Ok(Identity::NeedsLogin(key))) if key == "c:d"));
    assert!(identify(&status("NeedsLogin", "https://hs.example.com/nodekey:c/", "")).is_none());
}

#[test]
fn a_url_without_a_key_is_not_identified() {
    assert!(identify(&status("NeedsLogin", "https://hs.example.com/register", "")).is_none());
    assert!(identify(&status("NeedsLogin", "https://hs.example.com", "k:v")).is_none());
}

#[test]
fn an_invalid_url_is_an_error() {
    let found = identify(&status("NeedsLogin", "", "nodekey:abc"));
    assert!(matches!(
        found,
        Some(Err(ReconcileError::InvalidAuthUrl(url::ParseError::RelativeUrlWithoutBase)))
    ));
}

#[test]
fn a_url_without_path_segments_is_an_error() {
    let found = identify(&status("NeedsLogin", "data:text/plain,nodekey:abc", ""));
    assert!(matches!(found, Some(Err(ReconcileError::NoPathSegments))));
}

#[test]
fn a_node_that_runs_shows_its_key_itself() {
    let found = identify(&status("Running", "", "nodekey:abc"));
    assert!(matches!(found, Some(Ok(Identity::Running(key))) if key == "abc"));
    assert!(identify(&status("Running", "", "abc")).is_none());
}

#[test]
fn another_state_is_an_error() {
    let found = identify(&status("Stopped", "https://hs.example.com/nodekey:abc", "nodekey:abc"));
    assert!(matches!(found, Some(Err(ReconcileError::UnknownState(state))) if state == "Stopped"));
}

#[test]
fn segments_decide_the_key() {
    assert_eq!(nodekey_of_segments(segments(&["register", "nodekey:abc"])).unwrap(), "abc");
    assert!(matches!(nodekey_of_segments(Ok(None)), Err(ReconcileError::NoPathSegments)));
    assert!(matches!(
        nodekey_of_segments(Err(url::ParseError::EmptyHost)),
        Err(ReconcileError::InvalidAuthUrl(url::ParseError::EmptyHost))
    ));
    let login = status("NeedsLogin", "", "");
    assert!(matches!(
        identify_with(&login, segments(&["nodekey:a", "b:"])),
        Ok(Identity::NeedsLogin(key)) if key.is_empty()
    ));
    assert!(matches!(identify_with(&login, Ok(None)), Err(ReconcileError::NoPathSegments)));
    assert!(matches!(
        identify_with(&status("Running", "", "nodekey:abc"), segments(&["b"])),
        Ok(Identity::Running(key)) if key == "abc"
    ));
}
