use inspector_http::capture::capture_request;
use inspector_http::log::RequestLog;
use inspector_http::port::{
    probe_step, HttpServerApp, PortSupervisor, ProbeStep, ServerStatus, SupervisorAction,
    SupervisorEvent,
};
use inspector_http::profile::{get_status_description, response_parts};
use inspector_http::text::decimal_text;
use inspector_http::{HttpRequest, ResponseConfig};

fn record(path: &str) -> HttpRequest {
    capture_request(
        "2024-01-15 10:30:45.123".to_string(),
        "GET".to_string(),
        path,
        None,
        &Vec::new(),
        "127.0.0.1:1".to_string(),
        b"",
    )
}

#[test]
fn profile_defaults() {
    let c = ResponseConfig::default();
    assert_eq!(c.status_code, 200);
    assert_eq!(c.status_code_input, "200");
    assert_eq!(c.response_body, "OK\n");
}

#[test]
fn out_of_range_status_is_rejected() {
    let mut c = ResponseConfig::default();
    assert!(c.set_response(404, "not found".to_string()));
    assert!(!c.set_response(999, "other".to_string()));
    assert_eq!(c.read(), (404, "not found".to_string()));
    assert!(!c.set_response(99, "x".to_string()));
    assert_eq!(c.read(), (404, "not found".to_string()));
}

#[test]
fn configured_response_is_sent() {
    let mut c = ResponseConfig::default();
    assert!(c.set_response(404, "not found".to_string()));
    assert_eq!(c.status_code_input, "404");
    assert_eq!(c.response(), (404, "not found".to_string()));
    assert_eq!(c.response(), (404, "not found".to_string()));
}

#[test]
fn range_bounds_are_accepted() {
    let mut c = ResponseConfig::default();
    assert!(c.set_response(100, "a".to_string()));
    assert!(c.set_response(599, "b".to_string()));
    assert!(!c.set_response(600, "c".to_string()));
    assert_eq!(c.read(), (599, "b".to_string()));
}

#[test]
fn response_falls_back_on_bad_status() {
    assert_eq!(response_parts(700, "x".to_string()), (200, "OK\n".to_string()));
    assert_eq!(response_parts(201, "made".to_string()), (201, "made".to_string()));
}

#[test]
fn reading_twice_gives_the_same_pair() {
    let mut c = ResponseConfig::default();
    c.set_body("hello".to_string());
    assert_eq!(c.read(), c.read());
    assert_eq!(c.read(), (200, "hello".to_string()));
}

#[test]
fn status_text_edits() {
    let mut c = ResponseConfig::default();
    assert!(c.edit_status_input("418".to_string()));
    assert_eq!(c.status_code, 418);
    assert!(!c.edit_status_input("abc".to_string()));
    assert_eq!(c.status_code, 418);
    assert_eq!(c.status_code_input, "abc");
    assert!(!c.edit_status_input("999".to_string()));
    assert_eq!(c.status_code, 418);
    assert!(c.edit_status_input("+201".to_string()));
    assert_eq!(c.status_code, 201);
    assert_eq!(c.response_body, "OK\n");
}

#[test]
fn status_descriptions() {
    assert_eq!(get_status_description(200), "OK");
    assert_eq!(get_status_description(404), "Not Found");
    assert_eq!(get_status_description(418), "I'm a teapot");
    assert_eq!(get_status_description(511), "Network Authentication Required");
    assert_eq!(get_status_description(999), "Unknown Status Code");
}

#[test]
fn numbers_as_text() {
    assert_eq!(decimal_text(0), "0");
    assert_eq!(decimal_text(8080), "8080");
    assert_eq!(decimal_text(65535), "65535");
    let mut app = HttpServerApp::new(1);
    app.port_input = "65536".to_string();
    assert_eq!(app.submit_port_input(2), None);
    app.port_input = "".to_string();
    assert_eq!(app.submit_port_input(2), None);
    app.port_input = "+8081".to_string();
    assert_eq!(app.submit_port_input(2), Some(8081));
}

#[test]
fn every_appended_record_is_kept() {
    let mut log = RequestLog::new();
    for i in 0..25 {
        log.append(record(&format!("/r{}", i)));
    }
    let snap = log.snapshot();
    assert_eq!(snap.len(), 25);
    for (i, r) in snap.iter().enumerate() {
        assert_eq!(r.path, format!("/r{}", i));
    }
    assert_eq!(log.len(), 25);
}

#[test]
fn interleaved_appends_lose_nothing() {
    let log = std::sync::Arc::new(std::sync::Mutex::new(RequestLog::new()));
    let sources: Vec<_> = (0..8).map(|_| std::sync::Arc::clone(&log)).collect();
    for i in 0..50 {
        for (t, src) in sources.iter().enumerate().rev() {
            src.lock().unwrap().append(record(&format!("/t{}/{}", t, i)));
        }
    }
    let snap = log.lock().unwrap().snapshot();
    assert_eq!(snap.len(), 400);
    let mut paths: Vec<String> = snap.iter().map(|r| r.path.clone()).collect();
    paths.sort();
    paths.dedup();
    assert_eq!(paths.len(), 400);
}

#[test]
fn clear_then_append_leaves_only_the_new_record() {
    let mut log = RequestLog::new();
    log.append(record("/old1"));
    log.append(record("/old2"));
    log.clear();
    assert_eq!(log.len(), 0);
    log.append(record("/new"));
    let snap = log.snapshot();
    assert_eq!(snap.len(), 1);
    assert_eq!(snap[0].path, "/new");
}

#[test]
fn get_by_index() {
    let mut log = RequestLog::new();
    log.append(record("/first"));
    log.append(record("/second"));
    assert_eq!(log.get(0).map(|r| r.path.clone()), Some("/first".to_string()));
    assert_eq!(log.get(1).map(|r| r.path.clone()), Some("/second".to_string()));
    assert!(log.get(2).is_none());
}

#[test]
fn failed_rebind_keeps_last_working_port() {
    let (mut s, a) = PortSupervisor::new(8080);
    assert_eq!(a, SupervisorAction::Bind(8080));
    assert_eq!(s.step(SupervisorEvent::BindSucceeded), SupervisorAction::Serve);
    assert_eq!(s.last_working_port, 8080);
    assert_eq!(s.status.describe(), "Listening on http://0.0.0.0:8080");

    assert_eq!(s.step(SupervisorEvent::PortRequested(9000)), SupervisorAction::Bind(9000));
    assert_eq!(
        s.step(SupervisorEvent::BindFailed("address in use".to_string())),
        SupervisorAction::WaitForPort
    );
    assert_eq!(s.last_working_port, 8080);
    assert!(s.is_error());
    assert_eq!(s.status.describe(), "Error: address in use");

    assert_eq!(s.step(SupervisorEvent::PortRequested(9001)), SupervisorAction::Bind(9001));
    assert_eq!(s.step(SupervisorEvent::BindSucceeded), SupervisorAction::Serve);
    assert_eq!(s.last_working_port, 9001);
    assert_eq!(s.current_port, 9001);
    assert!(!s.is_error());
}

#[test]
fn port_zero_request_is_ignored() {
    let (mut s, _) = PortSupervisor::new(8080);
    s.step(SupervisorEvent::BindSucceeded);
    assert_eq!(s.step(SupervisorEvent::PortRequested(0)), SupervisorAction::Serve);
    assert_eq!(s.current_port, 8080);
}

#[test]
fn starting_status_line() {
    assert_eq!(ServerStatus::Starting.describe(), "Starting...");
}

#[test]
fn probe_steps() {
    assert!(matches!(probe_step(8080, 8080, true), ProbeStep::Use(8080)));
    assert!(matches!(probe_step(8080, 8081, false), ProbeStep::Try(8082)));
    assert!(matches!(probe_step(8080, 65535, false), ProbeStep::Use(8080)));
}

#[test]
fn panel_reverts_to_last_working_port_on_error() {
    let mut app = HttpServerApp::new(8080);
    assert_eq!(app.port_input, "8080");
    app.port_input = "9000".to_string();
    assert_eq!(app.submit_port_input(8080), Some(9000));
    assert_eq!(app.port, 9000);
    let status = ServerStatus::Error("Failed to bind to 0.0.0.0:9000".to_string());
    assert_eq!(app.observe_status(&status, 8080), Some(8080));
    assert_eq!(app.port, 8080);
    assert_eq!(app.port_input, "8080");
    assert_eq!(app.error_message, Some("Error: Failed to bind to 0.0.0.0:9000".to_string()));
    assert_eq!(app.observe_status(&status, 8080), None);
    app.clear_error();
    assert!(app.error_message.is_none());
    assert_eq!(app.observe_status(&ServerStatus::Listening(8080), 8080), None);
}

#[test]
fn panel_rejects_bad_port_text() {
    let mut app = HttpServerApp::new(8080);
    app.port_input = "0".to_string();
    assert_eq!(app.submit_port_input(8081), None);
    assert_eq!(app.port_input, "8081");
    app.port_input = "http".to_string();
    assert_eq!(app.submit_port_input(8081), None);
    assert_eq!(app.port_input, "8081");
    assert_eq!(app.port, 8080);
    app.port_input = "8080".to_string();
    assert_eq!(app.submit_port_input(8081), None);
    assert_eq!(app.port_input, "8080");
}

#[test]
fn panel_selection() {
    let mut log = RequestLog::new();
    log.append(record("/a"));
    let mut app = HttpServerApp::new(8080);
    assert!(app.selected(&log).is_none());
    app.selected_request = Some(0);
    assert_eq!(app.selected(&log).map(|r| r.path.clone()), Some("/a".to_string()));
    app.selected_request = Some(3);
    assert!(app.selected(&log).is_none());
}
