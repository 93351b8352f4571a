use charms_prover_client::{
    classify, start_state, step, AttemptEvent, AttemptOutcome, CharmsService, ProveError,
    ProveStartOutcome, SpellProveRequest, Transition, INITIAL_BACKOFF_SECS, MAX_ATTEMPTS,
};

fn sample_request() -> SpellProveRequest {
    SpellProveRequest {
        spell: "version: 8".to_string(),
        binaries: Vec::new(),
        prev_txs: vec!["aa".to_string()],
        funding_utxo: "abc123:0".to_string(),
        funding_utxo_value: 10000,
        change_address: "tb1q...".to_string(),
        fee_rate_milli: 2000,
        chain: "Bitcoin".to_string(),
    }
}

/// Drives the retry machine with one event per attempt, recording the
/// sleeps, until it finishes or the events run out.
fn drive(
    events: Vec<AttemptEvent>,
) -> (Vec<u64>, usize, Option<Result<Vec<charms_prover_client::ProvedTransaction>, ProveError>>) {
    let mut state = start_state();
    let mut sleeps = Vec::new();
    let mut attempts = 0usize;
    for event in events {
        attempts += 1;
        match step(state, classify(event)) {
            Transition::Done(result) => return (sleeps, attempts, Some(result)),
            Transition::Backoff { sleep_secs, next } => {
                sleeps.push(sleep_secs);
                state = next;
            }
        }
    }
    (sleeps, attempts, None)
}

#[test]
fn mock_mode_completes_with_one_transaction() {
    let service = CharmsService::new("http://localhost".to_string(), true);
    let request = sample_request();
    match service.begin_prove(&request) {
        ProveStartOutcome::Completed(txs) => {
            assert_eq!(txs.len(), 1);
            assert_eq!(txs[0].hex, "0200000001...");
            assert!(txs[0].txid.starts_with("mock_"));
            assert_eq!(txs[0].txid.len(), 41);
        }
        ProveStartOutcome::AwaitTransport(_) => panic!("mock mode must complete locally"),
    }
}

#[test]
fn consecutive_mock_proves_differ_in_txid() {
    let service = CharmsService::new("http://localhost".to_string(), true);
    let request = sample_request();
    let first = match service.begin_prove(&request) {
        ProveStartOutcome::Completed(txs) => txs,
        ProveStartOutcome::AwaitTransport(_) => panic!("mock mode must complete locally"),
    };
    let second = match service.begin_prove(&request) {
        ProveStartOutcome::Completed(txs) => txs,
        ProveStartOutcome::AwaitTransport(_) => panic!("mock mode must complete locally"),
    };
    assert_ne!(first[0].txid, second[0].txid);
}

#[test]
fn live_mode_starts_the_retry_machine() {
    let service = CharmsService::new("http://localhost".to_string(), false);
    let request = sample_request();
    match service.begin_prove(&request) {
        ProveStartOutcome::Completed(_) => panic!("live mode must go to the transport"),
        ProveStartOutcome::AwaitTransport(state) => {
            assert_eq!(state.attempt, 1);
            assert_eq!(state.backoff_secs, INITIAL_BACKOFF_SECS);
        }
    }
}

#[test]
fn transport_failures_exhaust_after_three_attempts() {
    let events = vec![
        AttemptEvent::TransportFailure,
        AttemptEvent::TransportFailure,
        AttemptEvent::TransportFailure,
    ];
    let (sleeps, attempts, result) = drive(events);
    assert_eq!(sleeps, vec![2, 4]);
    assert_eq!(attempts, MAX_ATTEMPTS as usize);
    match result.expect("the machine must finish") {
        Err(ProveError::Network { attempts }) => assert_eq!(attempts, 3),
        other => panic!("expected a network error, got {:?}", other),
    }
}

#[test]
fn empty_arrays_exhaust_with_empty_result() {
    let ok_empty = || AttemptEvent::Response { status: 200, body: "[]".to_string() };
    let (sleeps, attempts, result) = drive(vec![ok_empty(), ok_empty(), ok_empty()]);
    assert_eq!(sleeps, vec![2, 4]);
    assert_eq!(attempts, 3);
    match result.expect("the machine must finish") {
        Err(ProveError::EmptyResult) => {}
        other => panic!("expected an empty result error, got {:?}", other),
    }
}

#[test]
fn success_on_the_third_attempt_returns_that_array() {
    let events = vec![
        AttemptEvent::TransportFailure,
        AttemptEvent::Response { status: 503, body: "busy".to_string() },
        AttemptEvent::Response {
            status: 200,
            body: "[{\"hex\":\"aa\",\"txid\":\"t1\"},{\"hex\":\"bb\",\"txid\":\"t2\"}]"
                .to_string(),
        },
    ];
    let (sleeps, attempts, result) = drive(events);
    assert_eq!(sleeps, vec![2, 4]);
    assert_eq!(attempts, 3);
    let txs = result.expect("the machine must finish").expect("the third attempt succeeds");
    assert_eq!(txs.len(), 2);
    assert_eq!(txs[0].hex, "aa");
    assert_eq!(txs[0].txid, "t1");
    assert_eq!(txs[1].hex, "bb");
    assert_eq!(txs[1].txid, "t2");
}

#[test]
fn success_on_the_first_attempt_makes_no_further_attempts() {
    let events = vec![AttemptEvent::Response {
        status: 200,
        body: "[{\"hex\":\"aa\",\"txid\":\"t1\"}]".to_string(),
    }];
    let (sleeps, attempts, result) = drive(events);
    assert!(sleeps.is_empty());
    assert_eq!(attempts, 1);
    assert!(result.expect("the machine must finish").is_ok());
}

#[test]
fn rejections_exhaust_with_the_last_status_and_body() {
    let reject = |status: u16, body: &str| AttemptEvent::Response {
        status,
        body: body.to_string(),
    };
    let (_, _, result) = drive(vec![reject(500, "a"), reject(502, "b"), reject(503, "boom")]);
    match result.expect("the machine must finish") {
        Err(ProveError::RemoteRejected { status, body }) => {
            assert_eq!(status, 503);
            assert_eq!(body, "boom");
        }
        other => panic!("expected a rejection, got {:?}", other),
    }
}

#[test]
fn malformed_bodies_exhaust_with_malformed_response() {
    let bad = || AttemptEvent::Response { status: 200, body: "not json".to_string() };
    let (_, _, result) = drive(vec![bad(), bad(), bad()]);
    match result.expect("the machine must finish") {
        Err(ProveError::MalformedResponse) => {}
        other => panic!("expected a malformed response error, got {:?}", other),
    }
}

#[test]
fn cancellation_ends_the_call_at_once() {
    let (sleeps, attempts, result) = drive(vec![AttemptEvent::Cancelled]);
    assert!(sleeps.is_empty());
    assert_eq!(attempts, 1);
    match result.expect("the machine must finish") {
        Err(ProveError::Cancelled) => {}
        other => panic!("expected a cancellation, got {:?}", other),
    }
}

#[test]
fn classification_is_by_outcome_kind() {
    assert!(matches!(
        classify(AttemptEvent::TransportFailure),
        AttemptOutcome::Transient(charms_prover_client::TransientKind::Network)
    ));
    assert!(matches!(classify(AttemptEvent::Cancelled), AttemptOutcome::Aborted));
    assert!(matches!(
        classify(AttemptEvent::Response { status: 404, body: String::new() }),
        AttemptOutcome::Transient(charms_prover_client::TransientKind::Rejected { .. })
    ));
    assert!(matches!(
        classify(AttemptEvent::Response { status: 204, body: "[]".to_string() }),
        AttemptOutcome::Transient(charms_prover_client::TransientKind::Empty)
    ));
}

#[test]
fn charm_parsing_is_not_wired_up_yet() {
    let service = CharmsService::new("http://localhost".to_string(), true);
    assert!(service.parse_charms_from_tx("0200000001...").is_empty());
}
