use httpcalls::{
    verdict, Action, HeaderMap, HttpClient, HttpError, HttpMethod, HttpResponse, RequestBuilder,
    RequestConfig, RetryExecutor, Stage, Verdict,
};

struct Trace {
    actions: Vec<Action>,
    calls: u32,
    waited: u64,
    messages: Vec<String>,
    result: Result<HttpResponse, HttpError>,
}

fn ok_response(status: u16) -> HttpResponse {
    HttpResponse {
        status,
        headers: HeaderMap::new(),
        body: "done".to_string(),
        url: "https://api.test/x".to_string(),
        call_name: None,
    }
}

fn drive(
    config: &RequestConfig,
    has_sink: bool,
    mut transport: impl FnMut(u32) -> Result<HttpResponse, HttpError>,
) -> Trace {
    let mut ex = RetryExecutor::new(config, has_sink);
    let mut actions = Vec::new();
    let mut calls = 0;
    let mut waited = 0;
    let mut messages = Vec::new();
    loop {
        let a = ex.next_action();
        actions.push(a);
        match a {
            Action::Transmit => {
                calls += 1;
                let outcome = transport(ex.attempt());
                ex.deliver(outcome);
            }
            Action::Wait(ms) => waited += ms,
            Action::Notify => messages.push(ex.notification()),
            Action::Finish => {
                return Trace { actions, calls, waited, messages, result: ex.finish() };
            }
            _ => {}
        }
    }
}

fn network_failure(_: u32) -> Result<HttpResponse, HttpError> {
    Err(HttpError::Network { message: "unreachable".to_string() })
}

fn count(actions: &[Action], a: Action) -> usize {
    actions.iter().filter(|x| **x == a).count()
}

#[test]
fn network_failures_use_every_attempt_with_linear_backoff() {
    let client = HttpClient::new().base_url("https://api.test");
    let b = client.get("/users").retry(2, 100);
    let t = drive(&b.config, false, network_failure);
    assert_eq!(t.calls, 3);
    assert_eq!(t.waited, 300);
    assert_eq!(
        t.actions,
        vec![
            Action::Transmit,
            Action::Wait(100),
            Action::Transmit,
            Action::Wait(200),
            Action::Transmit,
            Action::Finish,
        ]
    );
    assert!(matches!(t.result, Err(HttpError::Network { .. })));
}

#[test]
fn persistent_retryable_failure_counts() {
    for n in 0u32..6 {
        let b = RequestBuilder::new(HttpMethod::Get, "https://api.test").retry(n, 10);
        let t = drive(&b.config, false, |_| Err(HttpError::Timeout));
        assert_eq!(t.calls, n + 1);
        assert_eq!(t.waited, 10 * (n as u64) * (n as u64 + 1) / 2);
        assert!(matches!(t.result, Err(HttpError::Timeout)));
    }
}

#[test]
fn client_error_stops_after_one_attempt() {
    let b = RequestBuilder::new(HttpMethod::Get, "https://api.test/missing").retry(5, 100);
    let t = drive(&b.config, false, |_| ok_response(404).classify());
    assert_eq!(t.calls, 1);
    assert_eq!(t.waited, 0);
    match t.result {
        Err(HttpError::Http { status, .. }) => assert_eq!(status, 404),
        _ => panic!("expected an Http error"),
    }
}

#[test]
fn non_retryable_kinds_make_one_call() {
    let kinds = vec![
        HttpError::Cancelled,
        HttpError::Configuration { message: "m".to_string() },
        HttpError::InvalidUrl { url: "u".to_string() },
        HttpError::Http { status: 401, message: "m".to_string(), body: None },
    ];
    for k in kinds {
        let b = RequestBuilder::new(HttpMethod::Post, "https://api.test").retry(3, 1);
        let t = drive(&b.config, false, |_| Err(k.clone()));
        assert_eq!(t.calls, 1);
        assert_eq!(t.result.unwrap_err(), k);
    }
}

#[test]
fn server_error_is_retried_then_success_returns() {
    let b = RequestBuilder::new(HttpMethod::Get, "https://api.test").retry(3, 50);
    let t = drive(&b.config, false, |k| {
        if k < 2 {
            ok_response(503).classify()
        } else {
            ok_response(201).classify()
        }
    });
    assert_eq!(t.calls, 3);
    assert_eq!(t.waited, 150);
    assert_eq!(t.result.unwrap().status, 201);
}

#[test]
fn retries_stop_at_the_configured_count() {
    let b = RequestBuilder::new(HttpMethod::Get, "https://api.test").retry(1, 7);
    let t = drive(&b.config, false, |k| {
        Err(HttpError::Http { status: 500, message: format!("attempt {}", k), body: None })
    });
    assert_eq!(t.calls, 2);
    match t.result {
        Err(HttpError::Http { message, .. }) => assert_eq!(message, "attempt 1"),
        _ => panic!("expected the last error"),
    }
}

#[test]
fn loader_toggles_once_per_send() {
    let b = RequestBuilder::new(HttpMethod::Get, "https://api.test")
        .with_loader(true)
        .retry(4, 1);
    let t = drive(&b.config, true, |_| Err(HttpError::Timeout));
    assert_eq!(t.calls, 5);
    assert_eq!(count(&t.actions, Action::EnableLoader), 1);
    assert_eq!(count(&t.actions, Action::DisableLoader), 1);
    assert_eq!(t.actions[0], Action::EnableLoader);
    assert_eq!(t.actions[t.actions.len() - 2], Action::DisableLoader);
    assert_eq!(t.actions[t.actions.len() - 1], Action::Finish);
}

#[test]
fn no_sink_means_no_events() {
    let b = RequestBuilder::new(HttpMethod::Get, "https://api.test")
        .with_loader(true)
        .with_progress(true)
        .with_notifications(true);
    let t = drive(&b.config, false, |_| ok_response(200).classify());
    assert_eq!(t.actions, vec![Action::Transmit, Action::Finish]);
}

#[test]
fn full_event_sequence_on_success() {
    let b = RequestBuilder::new(HttpMethod::Get, "https://api.test")
        .with_loader(true)
        .with_progress(true)
        .with_notifications(true);
    let t = drive(&b.config, true, |_| ok_response(200).classify());
    assert_eq!(
        t.actions,
        vec![
            Action::EnableLoader,
            Action::Progress(0),
            Action::Progress(50),
            Action::Transmit,
            Action::Progress(100),
            Action::Notify,
            Action::DisableLoader,
            Action::Finish,
        ]
    );
    assert_eq!(t.messages, vec!["Request completed successfully (200)".to_string()]);
}

#[test]
fn one_message_after_retries() {
    let b = RequestBuilder::new(HttpMethod::Get, "https://api.test")
        .with_notifications(true)
        .with_progress(true)
        .retry(2, 1);
    let t = drive(&b.config, true, network_failure);
    assert_eq!(t.messages, vec!["Request failed: Network error: unreachable".to_string()]);
    assert_eq!(count(&t.actions, Action::Progress(0)), 3);
    assert_eq!(count(&t.actions, Action::Progress(50)), 3);
    assert_eq!(count(&t.actions, Action::Progress(100)), 0);
}

#[test]
fn empty_url_is_rejected_without_a_call() {
    let b = RequestBuilder::new(HttpMethod::Get, "")
        .with_loader(true)
        .with_progress(true)
        .with_notifications(true)
        .retry(3, 10);
    let t = drive(&b.config, true, |_| panic!("no transport call expected"));
    assert_eq!(t.calls, 0);
    assert_eq!(
        t.actions,
        vec![
            Action::EnableLoader,
            Action::Progress(0),
            Action::Notify,
            Action::DisableLoader,
            Action::Finish,
        ]
    );
    assert_eq!(t.messages, vec!["Request failed: Invalid URL: ".to_string()]);
    assert_eq!(t.result.unwrap_err(), HttpError::InvalidUrl { url: String::new() });
}

#[test]
fn executor_reports_its_stage() {
    let b = RequestBuilder::new(HttpMethod::Get, "https://api.test").retry(2, 1);
    let mut ex = RetryExecutor::new(&b.config, false);
    assert_eq!(ex.stage(), Stage::Opening);
    assert_eq!(ex.attempts_allowed(), 3);
    assert_eq!(ex.next_action(), Action::Transmit);
    assert_eq!(ex.stage(), Stage::Awaiting);
    ex.deliver(ok_response(200).classify());
    assert_eq!(ex.stage(), Stage::Settled(Verdict::Success));
    assert_eq!(ex.next_action(), Action::Finish);
    assert_eq!(ex.stage(), Stage::Done(Verdict::Success));
}

#[test]
fn verdicts() {
    assert_eq!(verdict(&ok_response(200).classify()), Verdict::Success);
    assert_eq!(verdict(&ok_response(500).classify()), Verdict::Retryable);
    assert_eq!(verdict(&ok_response(404).classify()), Verdict::Fatal);
    assert_eq!(verdict(&Err(HttpError::Cancelled)), Verdict::Fatal);
}
