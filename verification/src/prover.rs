//! The submission protocol to the remote proving service, as an explicit
//! state machine: each attempt's result is classified, and the machine
//! either returns, or sleeps an exponentially growing backoff and tries
//! again, up to a fixed attempt ceiling. The transport itself (the HTTP
//! exchange and the sleeps) is the caller's: it feeds each attempt's
//! event back into the machine.

use vstd::prelude::*;

use crate::response::{parse, parse_result, ProvedTransaction};

verus! {

/// How many attempts a single prove call makes at most.
pub const MAX_ATTEMPTS: u64 = 3;

/// The backoff before the second attempt; it doubles per attempt.
pub const INITIAL_BACKOFF_SECS: u64 = 2;

/// The per-attempt ceiling on the HTTP exchange: proof generation is
/// computationally heavy, so this is a generous hang guard, not a
/// transient-fault timeout.
pub const ATTEMPT_TIMEOUT_SECS: u64 = 120;

/// Why a prove call failed for good.
#[derive(Debug)]
pub enum ProveError {
    /// Transport-level failure on every attempt; holds how many were made.
    Network { attempts: u64 },
    /// The service rejected the request; holds the last HTTP status and
    /// raw body for diagnostics.
    RemoteRejected { status: u16, body: String },
    /// The service answered success but the body was not the expected
    /// transaction array, on every attempt.
    MalformedResponse,
    /// The service answered success with an empty transaction array, on
    /// every attempt; an empty proof list is never a valid outcome.
    EmptyResult,
    /// The caller cancelled the call; not a service fault.
    Cancelled,
}

/// What the transport observed on one attempt.
#[derive(Debug)]
pub enum AttemptEvent {
    /// The exchange itself failed: connection, resolution or timeout.
    TransportFailure,
    /// A response arrived, whatever its status.
    Response { status: u16, body: String },
    /// The caller asked to abort the in-flight call.
    Cancelled,
}

/// A transient failure's kind, kept for the terminal error.
#[derive(Debug)]
pub enum TransientKind {
    Network,
    Rejected { status: u16, body: String },
    Malformed,
    Empty,
}

/// An attempt's classification: succeed, retry, or abort.
#[derive(Debug)]
pub enum AttemptOutcome {
    /// A success status with a non-empty, well-formed transaction array.
    Succeeded(Vec<ProvedTransaction>),
    /// A failure that another attempt may cure.
    Transient(TransientKind),
    /// The caller cancelled; never retried.
    Aborted,
}

/// What the machine does after an attempt.
#[derive(Debug)]
pub enum Transition {
    /// Sleep this long, then make the next attempt from `next`.
    Backoff { sleep_secs: u64, next: RetryState },
    /// The call is over, with this result.
    Done(Result<Vec<ProvedTransaction>, ProveError>),
}

/// Two to the `n`th.
pub open spec fn pow2(n: nat) -> nat
    decreases n,
{
    if n == 0 {
        1
    } else {
        2 * pow2((n - 1) as nat)
    }
}

/// The per-call retry state: which attempt is in flight and how long the
/// sleep before the next one would be.
#[derive(Clone, Copy, Debug, PartialEq, Eq, Structural)]
pub struct RetryState {
    pub attempt: u64,
    pub backoff_secs: u64,
}

impl RetryState {
    /// The attempt number is within the ceiling and the backoff has
    /// doubled once per finished attempt.
    pub open spec fn wf(&self) -> bool {
        &&& 1 <= self.attempt <= MAX_ATTEMPTS
        &&& self.backoff_secs == INITIAL_BACKOFF_SECS * pow2((self.attempt - 1) as nat)
    }
}

/// The state a prove call starts from: first attempt, initial backoff.
pub open spec fn initial_state() -> RetryState {
    RetryState { attempt: 1, backoff_secs: INITIAL_BACKOFF_SECS }
}

/// Builds the state a prove call starts from.
pub fn start_state() -> (r: RetryState)
    ensures
        r == initial_state(),
        r.wf(),
{
    proof {
        assert(pow2(0) == 1);
    }
    RetryState { attempt: 1, backoff_secs: INITIAL_BACKOFF_SECS }
}

/// The terminal error after the last attempt failed with this kind.
pub open spec fn terminal_error(kind: TransientKind, attempts: u64) -> ProveError {
    match kind {
        TransientKind::Network => ProveError::Network { attempts },
        TransientKind::Rejected { status, body } => ProveError::RemoteRejected { status, body },
        TransientKind::Malformed => ProveError::MalformedResponse,
        TransientKind::Empty => ProveError::EmptyResult,
    }
}

/// What the machine does in `state` on `outcome`: a success or an abort
/// ends the call at once; a transient failure backs off and doubles the
/// backoff while attempts remain, else it ends with the terminal error.
pub open spec fn step_spec(state: RetryState, outcome: AttemptOutcome) -> Transition {
    match outcome {
        AttemptOutcome::Succeeded(txs) => Transition::Done(Ok(txs)),
        AttemptOutcome::Aborted => Transition::Done(Err(ProveError::Cancelled)),
        AttemptOutcome::Transient(kind) => if state.attempt < MAX_ATTEMPTS {
            Transition::Backoff {
                sleep_secs: state.backoff_secs,
                next: RetryState {
                    attempt: (state.attempt + 1) as u64,
                    backoff_secs: (state.backoff_secs * 2) as u64,
                },
            }
        } else {
            Transition::Done(Err(terminal_error(kind, state.attempt)))
        },
    }
}

/// Advances the retry machine by one attempt's outcome.
pub fn step(state: RetryState, outcome: AttemptOutcome) -> (t: Transition)
    requires
        state.wf(),
    ensures
        t == step_spec(state, outcome),
        t matches Transition::Backoff { sleep_secs, next } ==> next.wf() && next.attempt == state.attempt
            + 1 && sleep_secs == state.backoff_secs,
{
    match outcome {
        AttemptOutcome::Succeeded(txs) => Transition::Done(Ok(txs)),
        AttemptOutcome::Aborted => Transition::Done(Err(ProveError::Cancelled)),
        AttemptOutcome::Transient(kind) => {
            if state.attempt < MAX_ATTEMPTS {
                proof {
                    assert(pow2(0) == 1);
                    assert(pow2(1) == 2);
                    assert(pow2((state.attempt) as nat) == 2 * pow2((state.attempt - 1) as nat));
                }
                Transition::Backoff {
                    sleep_secs: state.backoff_secs,
                    next: RetryState {
                        attempt: state.attempt + 1,
                        backoff_secs: state.backoff_secs * 2,
                    },
                }
            } else {
                let error = match kind {
                    TransientKind::Network => ProveError::Network { attempts: state.attempt },
                    TransientKind::Rejected { status, body } => ProveError::RemoteRejected {
                        status,
                        body,
                    },
                    TransientKind::Malformed => ProveError::MalformedResponse,
                    TransientKind::Empty => ProveError::EmptyResult,
                };
                Transition::Done(Err(error))
            }
        },
    }
}

/// A status the service counts as success.
pub open spec fn status_success(status: u16) -> bool {
    200 <= status < 300
}

/// Classifies what one attempt observed: a transport failure and every
/// response-contract violation are transient; only a success status with
/// a well-formed, non-empty transaction array succeeds; a cancellation
/// aborts.
pub fn classify(event: AttemptEvent) -> (r: AttemptOutcome)
    ensures
        event is TransportFailure ==> r == AttemptOutcome::Transient(TransientKind::Network),
        event is Cancelled ==> r == AttemptOutcome::Aborted,
        event matches AttemptEvent::Response { status, body } ==> {
            &&& !status_success(status) ==> r == AttemptOutcome::Transient(
                TransientKind::Rejected { status, body },
            )
            &&& status_success(status) && parse_result(body@) is None ==> r
                == AttemptOutcome::Transient(TransientKind::Malformed)
            &&& status_success(status) && parse_result(body@) is Some && parse_result(
                body@,
            )->0.len() == 0 ==> r == AttemptOutcome::Transient(TransientKind::Empty)
            &&& status_success(status) && parse_result(body@) is Some && parse_result(
                body@,
            )->0.len() > 0 ==> (r matches AttemptOutcome::Succeeded(got) && got@.map_values(
                |t: ProvedTransaction| t@,
            ) == parse_result(body@)->0)
        },
{
    match event {
        AttemptEvent::TransportFailure => AttemptOutcome::Transient(TransientKind::Network),
        AttemptEvent::Cancelled => AttemptOutcome::Aborted,
        AttemptEvent::Response { status, body } => {
            if !(200 <= status && status < 300) {
                AttemptOutcome::Transient(TransientKind::Rejected { status, body })
            } else {
                match parse(body.as_str()) {
                    Err(_) => AttemptOutcome::Transient(TransientKind::Malformed),
                    Ok(txs) => {
                        if txs.len() == 0 {
                            AttemptOutcome::Transient(TransientKind::Empty)
                        } else {
                            AttemptOutcome::Succeeded(txs)
                        }
                    },
                }
            }
        },
    }
}

/// Law: a successful attempt ends the call at once with exactly the
/// decoded transactions, whatever the attempt number.
pub proof fn lemma_success_is_immediate(state: RetryState, txs: Vec<ProvedTransaction>)
    ensures
        step_spec(state, AttemptOutcome::Succeeded(txs)) == Transition::Done(
            Ok::<Vec<ProvedTransaction>, ProveError>(txs),
        ),
{
}

/// Law: a cancellation ends the call at once, never with a retry.
pub proof fn lemma_cancel_is_immediate(state: RetryState)
    ensures
        step_spec(state, AttemptOutcome::Aborted) == Transition::Done(
            Err::<Vec<ProvedTransaction>, ProveError>(ProveError::Cancelled),
        ),
{
}

/// Law: the machine never returns success from anything but a successful
/// attempt carrying exactly the returned transactions.
pub proof fn lemma_no_stale_success(state: RetryState, outcome: AttemptOutcome)
    ensures
        step_spec(state, outcome) matches Transition::Done(result) ==> (result is Ok ==> (outcome
            matches AttemptOutcome::Succeeded(txs) && result->Ok_0 == txs)),
{
}

/// Law: when every attempt fails transiently, the machine makes exactly
/// three attempts, sleeps two then four time units between them, and ends
/// with the terminal error of the last failure.
pub proof fn lemma_transient_exhaustion(k1: TransientKind, k2: TransientKind, k3: TransientKind)
    ensures
        step_spec(initial_state(), AttemptOutcome::Transient(k1)) == (Transition::Backoff {
            sleep_secs: 2u64,
            next: RetryState { attempt: 2u64, backoff_secs: 4u64 },
        }),
        step_spec(
            RetryState { attempt: 2u64, backoff_secs: 4u64 },
            AttemptOutcome::Transient(k2),
        ) == (Transition::Backoff {
            sleep_secs: 4u64,
            next: RetryState { attempt: 3u64, backoff_secs: 8u64 },
        }),
        step_spec(
            RetryState { attempt: 3u64, backoff_secs: 8u64 },
            AttemptOutcome::Transient(k3),
        ) == Transition::Done(
            Err::<Vec<ProvedTransaction>, ProveError>(terminal_error(k3, 3u64)),
        ),
{
}

} // verus!
