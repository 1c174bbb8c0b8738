use actix_rollbar::client::Rollbar;
use actix_rollbar::context::{to_rollbar_request, RequestParts};
use actix_rollbar::middleware::{is_server_error, Action, Outcome, RollbarMiddleware};
use actix_rollbar::report::Report;

fn widget_request() -> RequestParts {
    RequestParts {
        scheme: "http".to_string(),
        host: "localhost:8080".to_string(),
        uri: "/widgets/42".to_string(),
        method: "GET".to_string(),
        headers: vec![("Accept".to_string(), b"application/json".to_vec())],
    }
}

fn configured() -> RollbarMiddleware {
    Rollbar::from_env(Some("key".to_string()), None).new_transform()
}

fn unconfigured() -> RollbarMiddleware {
    RollbarMiddleware::new(Rollbar::from_env(None, None))
}

fn expect_respond_only(actions: Vec<Action>, outcome: &Outcome) {
    assert_eq!(actions.len(), 1, "{:?}", actions);
    match &actions[0] {
        Action::Respond(returned) => assert_eq!(returned, outcome),
        other => panic!("unexpected action: {:?}", other),
    }
}

fn expect_report_then_respond(actions: Vec<Action>, message: &str, outcome: &Outcome) {
    assert_eq!(actions.len(), 2, "{:?}", actions);
    match &actions[0] {
        Action::Send(Report::Error { error, request }) => {
            assert_eq!(error, message);
            assert_eq!(request, &to_rollbar_request(&widget_request()));
        }
        other => panic!("unexpected action: {:?}", other),
    }
    match &actions[1] {
        Action::Respond(returned) => assert_eq!(returned, outcome),
        other => panic!("unexpected action: {:?}", other),
    }
}

#[test]
fn status_classes() {
    assert!(!is_server_error(0));
    assert!(!is_server_error(99));
    assert!(!is_server_error(100));
    assert!(!is_server_error(200));
    assert!(!is_server_error(404));
    assert!(!is_server_error(499));
    assert!(is_server_error(500));
    assert!(is_server_error(503));
    assert!(is_server_error(599));
    assert!(!is_server_error(600));
    assert!(!is_server_error(999));
    assert!(!is_server_error(1000));
    assert!(!is_server_error(u16::MAX));
}

#[test]
fn status_classes_on_every_number() {
    for status in 0u16..=u16::MAX {
        assert_eq!(is_server_error(status), (500..600).contains(&status), "status {}", status);
    }
}

#[test]
fn call_takes_the_context_from_the_request() {
    let in_flight = configured().call(&widget_request());
    assert_eq!(in_flight.detail().url, "http://localhost:8080/widgets/42");
    assert_eq!(in_flight.detail().method, "GET");
    assert_eq!(
        in_flight.detail().headers,
        vec![("Accept".to_string(), "application/json".to_string())]
    );
}

#[test]
fn call_takes_the_context_without_a_client_too() {
    let in_flight = unconfigured().call(&widget_request());
    assert_eq!(in_flight.detail(), &to_rollbar_request(&widget_request()));
}

#[test]
fn context_is_of_the_request_as_received() {
    let mut request = widget_request();
    let in_flight = configured().call(&request);
    request.uri = "/rewritten".to_string();
    request.headers.clear();
    assert_eq!(in_flight.detail().url, "http://localhost:8080/widgets/42");
    assert_eq!(in_flight.detail().headers.len(), 1);
}

#[test]
fn success_is_passed_through() {
    for status in [200u16, 201, 204, 301, 400, 404, 499] {
        let outcome = Outcome::Response { status, attached: None };
        expect_respond_only(configured().call(&widget_request()).complete(outcome.clone()), &outcome);
    }
}

#[test]
fn client_error_with_attached_error_is_not_reported() {
    let outcome = Outcome::Response { status: 404, attached: Some("no such widget".to_string()) };
    expect_respond_only(configured().call(&widget_request()).complete(outcome.clone()), &outcome);
}

#[test]
fn handler_failure_is_reported_then_returned() {
    let outcome = Outcome::Failure { error: "db timeout".to_string() };
    let actions = configured().call(&widget_request()).complete(outcome.clone());
    assert_eq!(actions.len(), 2);
    match &actions[0] {
        Action::Send(Report::Error { error, request }) => {
            assert_eq!(error, "db timeout");
            assert!(request.url.ends_with("/widgets/42"));
            assert_eq!(request.method, "GET");
            assert!(request
                .headers
                .contains(&("Accept".to_string(), "application/json".to_string())));
        }
        other => panic!("unexpected action: {:?}", other),
    }
    match &actions[1] {
        Action::Respond(Outcome::Failure { error }) => assert_eq!(error, "db timeout"),
        other => panic!("unexpected action: {:?}", other),
    }
}

#[test]
fn server_failure_with_error_is_reported_then_returned() {
    let outcome = Outcome::Response { status: 503, attached: Some("upstream down".to_string()) };
    let actions = configured().call(&widget_request()).complete(outcome.clone());
    expect_report_then_respond(actions, "upstream down", &outcome);
}

#[test]
fn every_server_failure_status_with_error_is_reported() {
    for status in [500u16, 501, 502, 550, 599] {
        let outcome = Outcome::Response { status, attached: Some("broken".to_string()) };
        let actions = configured().call(&widget_request()).complete(outcome.clone());
        expect_report_then_respond(actions, "broken", &outcome);
    }
}

#[test]
fn server_failure_without_error_is_not_reported() {
    for status in [500u16, 503, 599] {
        let outcome = Outcome::Response { status, attached: None };
        expect_respond_only(configured().call(&widget_request()).complete(outcome.clone()), &outcome);
    }
}

#[test]
fn status_just_outside_the_range_is_not_reported() {
    for status in [499u16, 600] {
        let outcome = Outcome::Response { status, attached: Some("odd".to_string()) };
        expect_respond_only(configured().call(&widget_request()).complete(outcome.clone()), &outcome);
    }
}

#[test]
fn nothing_is_sent_without_a_client() {
    let outcomes = vec![
        Outcome::Failure { error: "db timeout".to_string() },
        Outcome::Response { status: 503, attached: Some("upstream down".to_string()) },
        Outcome::Response { status: 500, attached: None },
        Outcome::Response { status: 200, attached: None },
    ];
    for outcome in outcomes {
        expect_respond_only(unconfigured().call(&widget_request()).complete(outcome.clone()), &outcome);
    }
}

#[test]
fn report_carries_empty_value_for_header_that_is_not_text() {
    let mut request = widget_request();
    request.headers.push(("X-Binary".to_string(), vec![0xff, 0xfe]));
    let actions = configured()
        .call(&request)
        .complete(Outcome::Failure { error: "db timeout".to_string() });
    match &actions[0] {
        Action::Send(Report::Error { request, .. }) => assert_eq!(
            request.headers,
            vec![
                ("Accept".to_string(), "application/json".to_string()),
                ("X-Binary".to_string(), String::new()),
            ]
        ),
        other => panic!("unexpected action: {:?}", other),
    }
}

#[test]
fn one_interceptor_serves_many_requests() {
    let middleware = configured();
    let first = middleware.call(&widget_request());
    let second = middleware.call(&widget_request());
    let ok = Outcome::Response { status: 200, attached: None };
    let failed = Outcome::Failure { error: "db timeout".to_string() };
    expect_report_then_respond(second.complete(failed.clone()), "db timeout", &failed);
    expect_respond_only(first.complete(ok.clone()), &ok);
}
