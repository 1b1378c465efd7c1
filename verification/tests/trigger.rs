use agama_sync::http::{BaseHTTPClient, HttpVerb};
use agama_sync::manager::{ManagerHTTPClient, ProbeAction};

fn test_manager() -> ManagerHTTPClient {
    ManagerHTTPClient::new_with_base(BaseHTTPClient::new_with_url("http://test".to_string()))
}

#[test]
fn unset_flag_skips_the_call_and_succeeds() {
    let manager = test_manager();
    match manager.probe_plan(None) {
        ProbeAction::Skip => {}
        ProbeAction::Invoke { .. } => panic!("an unset flag must invoke nothing"),
    }
}

#[test]
fn sentinel_flag_invokes_the_alternate_path() {
    let manager = test_manager();
    match manager.probe_plan(Some("1".to_string())) {
        ProbeAction::Invoke { request } => {
            assert_eq!(request.verb, HttpVerb::Post);
            assert_eq!(request.url, "http://test/manager/probe_sync");
            assert!(request.body.is_empty());
        }
        ProbeAction::Skip => panic!("the sentinel must invoke the alternate path"),
    }
}

#[test]
fn any_other_flag_value_invokes_the_default_path() {
    let manager = test_manager();
    for value in ["0", "yes", "true", ""] {
        match manager.probe_plan(Some(value.to_string())) {
            ProbeAction::Invoke { request } => {
                assert_eq!(request.verb, HttpVerb::Post);
                assert_eq!(request.url, "http://test/manager/probe");
                assert!(request.body.is_empty());
            }
            ProbeAction::Skip => panic!("a set flag must invoke a path"),
        }
    }
}

#[test]
fn flag_is_resolved_fresh_at_each_call() {
    let manager = test_manager();
    match manager.probe_plan(Some("1".to_string())) {
        ProbeAction::Invoke { request } => {
            assert_eq!(request.url, "http://test/manager/probe_sync")
        }
        ProbeAction::Skip => panic!("the sentinel must invoke the alternate path"),
    }
    match manager.probe_plan(None) {
        ProbeAction::Skip => {}
        ProbeAction::Invoke { .. } => panic!("the flag must not be cached across calls"),
    }
}

#[test]
fn default_manager_uses_the_local_endpoint() {
    let manager = match ManagerHTTPClient::new() {
        Ok(m) => m,
        Err(_) => panic!("default manager construction must succeed"),
    };
    match manager.probe_plan(Some("other".to_string())) {
        ProbeAction::Invoke { request } => {
            assert_eq!(request.url, "http://localhost/api/manager/probe");
        }
        ProbeAction::Skip => panic!("a set flag must invoke a path"),
    }
}
