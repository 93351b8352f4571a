//! The Charms proving service client: fixed configuration, template
//! rendering, local validation, and the entry into the prove protocol.
//! In mock mode a prove call completes locally with one synthetic
//! transaction; in live mode it hands the caller the retry machine's
//! start state, and the caller's transport drives `classify` and `step`.

use vstd::prelude::*;
use vstd::string::*;

use crate::ids::fresh_uuid;
use crate::prover::{initial_state, start_state};
use crate::render::{render, render_spec, Bindings};
use crate::response::ProvedTransaction;
use crate::validate::{spell_valid, validate_spell, yaml_mapping_has_key, ValidationError};

verus! {

/// The client's fixed configuration: the proving endpoint and whether to
/// mock. Read once at construction and never mutated.
pub struct CharmsService {
    pub api_url: String,
    pub mock_mode: bool,
}

/// The wire request for one prove call.
pub struct SpellProveRequest {
    /// The rendered spell text; the text form, not a parsed form, is what
    /// is transmitted.
    pub spell: String,
    /// Application identifier to compiled binary, with distinct
    /// identifiers.
    pub binaries: Vec<(String, Vec<u8>)>,
    /// Raw previous transactions, hex-encoded.
    pub prev_txs: Vec<String>,
    /// The funding UTXO reference.
    pub funding_utxo: String,
    /// The funding UTXO's value in satoshis.
    pub funding_utxo_value: u64,
    /// Where change returns.
    pub change_address: String,
    /// Fee rate in thousandths of a satoshi per weight unit, so the
    /// wire's fractional rate is carried exactly; always positive.
    pub fee_rate_milli: u64,
    /// The target chain identifier, e.g. "Bitcoin".
    pub chain: String,
}

impl SpellProveRequest {
    /// The request's invariant: a positive fee rate and distinct binary
    /// identifiers.
    pub open spec fn wf(&self) -> bool {
        &&& self.fee_rate_milli > 0
        &&& forall|i: int, j: int|
            0 <= i < j < self.binaries@.len() ==> (#[trigger] self.binaries@[i]).0@ != (
            #[trigger] self.binaries@[j]).0@
    }
}

/// The placeholder hex payload a mock prove returns.
pub open spec fn mock_tx_hex() -> Seq<char> {
    "0200000001..."@
}

/// A synthetic transaction for mock mode: the fixed placeholder hex and a
/// freshly generated id under the `mock_` prefix.
fn mock_transaction() -> (r: ProvedTransaction)
    ensures
        r.hex@ == mock_tx_hex(),
        r.txid@.len() == 41,
        r.txid@.subrange(0, 5) == "mock_"@,
{
    let id = fresh_uuid();
    let prefix: String = "mock_".to_owned();
    let txid = prefix.concat(id.as_str());
    proof {
        reveal_strlit("mock_");
        assert(txid@.subrange(0, 5) =~= "mock_"@);
    }
    ProvedTransaction { hex: "0200000001...".to_owned(), txid }
}

/// A charm found on a UTXO; `data` holds its payload as JSON text.
pub struct CharmInfo {
    pub app_id: String,
    pub app_vk: String,
    pub tag: String,
    pub data: String,
}

/// How a prove call begins.
pub enum ProveStartOutcome {
    /// Mock mode: the call is already complete, with these transactions.
    Completed(Vec<ProvedTransaction>),
    /// Live mode: the transport must drive the retry machine from this
    /// state, submitting the same request on every attempt.
    AwaitTransport(crate::prover::RetryState),
}

impl CharmsService {
    /// A client against `api_url`, mocking when `mock_mode` is set.
    pub fn new(api_url: String, mock_mode: bool) -> (r: CharmsService)
        ensures
            r.api_url == api_url,
            r.mock_mode == mock_mode,
    {
        CharmsService { api_url, mock_mode }
    }

    /// Renders a spell template with the given variable bindings.
    pub fn build_spell(&self, template: &str, variables: &Bindings) -> (r: String)
        requires
            variables.wf(),
        ensures
            r@ == render_spec(template@, variables.map_view()),
    {
        render(template, variables)
    }

    /// Validates a rendered spell locally before proving.
    pub fn validate_spell(&self, spell_yaml: &str) -> (r: Result<(), ValidationError>)
        ensures
            r is Ok <==> spell_valid(spell_yaml@),
            (r is Err && r->Err_0 is MalformedDocument) <==> yaml_mapping_has_key(
                spell_yaml@,
                "version"@,
            ) is None,
            (r is Err && r->Err_0 is MissingField) <==> yaml_mapping_has_key(
                spell_yaml@,
                "version"@,
            ) == Some(false),
            r is Err && r->Err_0 is MissingField ==> r->Err_0->MissingField_0@ == "version"@,
    {
        validate_spell(spell_yaml)
    }

    /// Finds the charms among a raw transaction's outputs. Decoding the
    /// charm commitment from the witness data is not wired up yet, so
    /// every transaction yields none.
    pub fn parse_charms_from_tx(&self, _tx_hex: &str) -> (r: Vec<CharmInfo>)
        ensures
            r@.len() == 0,
    {
        Vec::new()
    }

    /// Begins a prove call. In mock mode it completes at once with exactly
    /// one synthetic transaction — no network access, no retries; in live
    /// mode it yields the retry machine's start state for the caller's
    /// transport to drive, resubmitting `request` on every attempt.
    pub fn begin_prove(&self, request: &SpellProveRequest) -> (r: ProveStartOutcome)
        requires
            request.wf(),
        ensures
            self.mock_mode ==> (r matches ProveStartOutcome::Completed(txs) && txs@.len() == 1
                && txs@[0].hex@ == mock_tx_hex() && txs@[0].txid@.len() == 41
                && txs@[0].txid@.subrange(0, 5) == "mock_"@),
            !self.mock_mode ==> (r matches ProveStartOutcome::AwaitTransport(s) && s
                == initial_state() && s.wf()),
    {
        if self.mock_mode {
            let tx = mock_transaction();
            let mut txs: Vec<ProvedTransaction> = Vec::new();
            txs.push(tx);
            ProveStartOutcome::Completed(txs)
        } else {
            ProveStartOutcome::AwaitTransport(start_state())
        }
    }
}

} // verus!
