//! Spell and transaction endpoints' data model and responses: what the
//! prove endpoint answers in mock mode and around the live prover, and
//! the broadcast and status stubs.

use vstd::prelude::*;
use vstd::string::*;

use crate::ids::fresh_uuid;

verus! {

/// The prove endpoint's response.
pub struct ProveSpellResponse {
    pub success: bool,
    pub transactions: Vec<TransactionData>,
    pub total_fee: u64,
    pub error: Option<String>,
}

/// A transaction handed back for signing.
pub struct TransactionData {
    pub txid: String,
    pub hex: String,
    pub inputs_to_sign: Vec<InputToSign>,
}

/// An input the caller must sign.
pub struct InputToSign {
    pub index: u32,
    pub sighash_type: String,
    pub script_pubkey: String,
}

pub struct BroadcastRequest {
    pub signed_txs: Vec<String>,
}

pub struct BroadcastResponse {
    pub success: bool,
    pub txids: Vec<String>,
    pub error: Option<String>,
}

pub struct TransactionStatus {
    pub txid: String,
    pub confirmed: bool,
    pub confirmations: u32,
    pub block_height: Option<u64>,
    pub block_hash: Option<String>,
}

/// The mock prove answer: a commit transaction with one input to sign and
/// a spell transaction spending the commit output.
pub fn mock_prove_spell_response() -> (r: ProveSpellResponse)
    ensures
        r.success,
        r.total_fee == 500,
        r.error is None,
        r.transactions@.len() == 2,
        r.transactions@[0].txid@ == "mock_commit_txid"@,
        r.transactions@[0].hex@ == "0200000001..."@,
        r.transactions@[0].inputs_to_sign@.len() == 1,
        r.transactions@[0].inputs_to_sign@[0].index == 0,
        r.transactions@[0].inputs_to_sign@[0].sighash_type@ == "SIGHASH_ALL"@,
        r.transactions@[0].inputs_to_sign@[0].script_pubkey@ == "0014..."@,
        r.transactions@[1].txid@ == "mock_spell_txid"@,
        r.transactions@[1].hex@ == "0200000001..."@,
        r.transactions@[1].inputs_to_sign@.len() == 0,
{
    let mut commit_inputs: Vec<InputToSign> = Vec::new();
    commit_inputs.push(
        InputToSign {
            index: 0,
            sighash_type: "SIGHASH_ALL".to_owned(),
            script_pubkey: "0014...".to_owned(),
        },
    );
    let mut transactions: Vec<TransactionData> = Vec::new();
    transactions.push(
        TransactionData {
            txid: "mock_commit_txid".to_owned(),
            hex: "0200000001...".to_owned(),
            inputs_to_sign: commit_inputs,
        },
    );
    transactions.push(
        TransactionData {
            txid: "mock_spell_txid".to_owned(),
            hex: "0200000001...".to_owned(),
            inputs_to_sign: Vec::new(),
        },
    );
    ProveSpellResponse { success: true, transactions, total_fee: 500, error: None }
}

/// The prove endpoint's answer when the remote call went through; the
/// transaction extraction is not wired up yet.
pub fn prove_success_response() -> (r: ProveSpellResponse)
    ensures
        r.success,
        r.transactions@.len() == 0,
        r.total_fee == 0,
        r.error is None,
{
    ProveSpellResponse { success: true, transactions: Vec::new(), total_fee: 0, error: None }
}

/// The prove endpoint's answer for a failed remote call, carrying its
/// description.
pub fn prove_failure_response(error: String) -> (r: ProveSpellResponse)
    ensures
        !r.success,
        r.transactions@.len() == 0,
        r.total_fee == 0,
        r.error == Some(error),
{
    ProveSpellResponse { success: false, transactions: Vec::new(), total_fee: 0, error: Some(error) }
}

/// The mock broadcast answer: one fresh id under the `mock_txid_` prefix
/// per submitted transaction.
pub fn mock_broadcast_response(signed_txs: &Vec<String>) -> (r: BroadcastResponse)
    ensures
        r.success,
        r.error is None,
        r.txids@.len() == signed_txs@.len(),
        forall|i: int|
            0 <= i < r.txids@.len() ==> (#[trigger] r.txids@[i])@.len() == 46
                && r.txids@[i]@.subrange(0, 10) == "mock_txid_"@,
{
    let n = signed_txs.len();
    let mut txids: Vec<String> = Vec::new();
    let mut k: usize = 0;
    while k < n
        invariant
            k <= n,
            txids@.len() == k,
            forall|i: int|
                0 <= i < k ==> (#[trigger] txids@[i])@.len() == 46 && txids@[i]@.subrange(0, 10)
                    == "mock_txid_"@,
        decreases n - k,
    {
        let id = fresh_uuid();
        let prefix: String = "mock_txid_".to_owned();
        let txid = prefix.concat(id.as_str());
        proof {
            reveal_strlit("mock_txid_");
            assert(txid@.subrange(0, 10) =~= "mock_txid_"@);
        }
        txids.push(txid);
        k += 1;
    }
    BroadcastResponse { success: true, txids, error: None }
}

/// The broadcast answer while node submission is not wired up.
pub fn not_implemented_broadcast() -> (r: BroadcastResponse)
    ensures
        !r.success,
        r.txids@.len() == 0,
        (r.error matches Some(e) && e@ == "Not implemented"@),
{
    BroadcastResponse {
        success: false,
        txids: Vec::new(),
        error: Some("Not implemented".to_owned()),
    }
}

/// The status answer while node queries are not wired up: unconfirmed.
pub fn transaction_status_snapshot(txid: String) -> (r: TransactionStatus)
    ensures
        r.txid == txid,
        !r.confirmed,
        r.confirmations == 0,
        r.block_height is None,
        r.block_hash is None,
{
    TransactionStatus {
        txid,
        confirmed: false,
        confirmations: 0,
        block_height: None,
        block_hash: None,
    }
}

} // verus!
