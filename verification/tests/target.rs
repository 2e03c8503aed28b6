use cap_cli::{request_target, resolve_target, CaptureTarget, TargetRequest, NO_TARGET_ERROR};

fn ids(list: &[&str]) -> Vec<String> {
    list.iter().map(|s| s.to_string()).collect()
}

#[test]
fn screen_is_preferred_over_window() {
    match request_target(Some("1".to_string()), Some("2".to_string())) {
        Ok(TargetRequest::Screen(id)) => assert_eq!(id, "1"),
        _ => panic!("expected the screen"),
    }
}

#[test]
fn window_is_taken_without_screen() {
    match request_target(None, Some("42".to_string())) {
        Ok(TargetRequest::Window(id)) => assert_eq!(id, "42"),
        _ => panic!("expected the window"),
    }
}

#[test]
fn no_target_is_refused() {
    match request_target(None, None) {
        Err(message) => {
            assert_eq!(message, "No target specified. Use --screen <id> or --window <id>");
            assert_eq!(message, NO_TARGET_ERROR);
        }
        Ok(_) => panic!("expected an error"),
    }
}

#[test]
fn listed_screen_is_captured() {
    match resolve_target(TargetRequest::Screen("2".to_string()), &ids(&["1", "2", "3"])) {
        Ok(CaptureTarget::Display(id)) => assert_eq!(id, "2"),
        _ => panic!("expected the display"),
    }
}

#[test]
fn unknown_screen_is_reported() {
    match resolve_target(TargetRequest::Screen("9".to_string()), &ids(&["1", "2"])) {
        Err(message) => assert_eq!(message, "Screen with id '9' not found"),
        Ok(_) => panic!("expected an error"),
    }
}

#[test]
fn listed_window_is_captured() {
    match resolve_target(TargetRequest::Window("77".to_string()), &ids(&["77"])) {
        Ok(CaptureTarget::Window(id)) => assert_eq!(id, "77"),
        _ => panic!("expected the window"),
    }
}

#[test]
fn unknown_window_is_reported_even_with_nothing_listed() {
    match resolve_target(TargetRequest::Window("5".to_string()), &Vec::new()) {
        Err(message) => assert_eq!(message, "Window with id '5' not found"),
        Ok(_) => panic!("expected an error"),
    }
}

#[test]
fn ids_must_match_exactly() {
    assert!(resolve_target(TargetRequest::Screen("1".to_string()), &ids(&["10", " 1", "01"])).is_err());
}
