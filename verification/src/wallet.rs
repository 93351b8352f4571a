//! Wallet endpoints' data model and responses. The node queries are not
//! wired up yet, so the answers are fixed snapshots.

use vstd::prelude::*;

verus! {

/// An unspent output, with any charms found on it.
pub struct Utxo {
    pub txid: String,
    pub vout: u32,
    pub value: u64,
    pub script_pubkey: String,
    pub confirmations: u32,
    pub charms: Option<Vec<CharmData>>,
}

/// A charm attached to a UTXO; `data` holds its payload as JSON text.
pub struct CharmData {
    pub app_id: String,
    pub app_tag: String,
    pub data: String,
}

pub struct WalletBalance {
    pub btc_balance: u64,
    pub tokens: Vec<TokenBalance>,
}

pub struct TokenBalance {
    pub token_id: String,
    pub ticker: String,
    pub amount: String,
}

pub struct ConnectWalletRequest {
    pub address: String,
    pub signature: Option<String>,
    pub message: Option<String>,
}

pub struct ConnectWalletResponse {
    pub connected: bool,
    pub address: String,
    pub network: String,
}

/// Accepts the connection, echoing the address on the test network.
pub fn connect_wallet_response(req: ConnectWalletRequest) -> (r: ConnectWalletResponse)
    ensures
        r.connected,
        r.address == req.address,
        r.network@ == "testnet4"@,
{
    ConnectWalletResponse { connected: true, address: req.address, network: "testnet4".to_owned() }
}

/// The balance snapshot the balance endpoint answers with.
pub fn balance_snapshot() -> (r: WalletBalance)
    ensures
        r.btc_balance == 50000,
        r.tokens@.len() == 1,
        r.tokens@[0].token_id@ == "abc123"@,
        r.tokens@[0].ticker@ == "TOAD"@,
        r.tokens@[0].amount@ == "10000"@,
{
    let mut tokens: Vec<TokenBalance> = Vec::new();
    tokens.push(
        TokenBalance {
            token_id: "abc123".to_owned(),
            ticker: "TOAD".to_owned(),
            amount: "10000".to_owned(),
        },
    );
    WalletBalance { btc_balance: 50000, tokens }
}

/// The UTXO snapshot the UTXO endpoint answers with: one output carrying
/// one token charm.
pub fn utxo_snapshot() -> (r: Vec<Utxo>)
    ensures
        r@.len() == 1,
        r@[0].txid@ == "abc123def456"@,
        r@[0].vout == 0,
        r@[0].value == 10000,
        r@[0].script_pubkey@ == "0014..."@,
        r@[0].confirmations == 6,
        (r@[0].charms matches Some(charms) && charms@.len() == 1 && charms@[0].app_id@
            == "toad_token"@ && charms@[0].app_tag@ == "token"@ && charms@[0].data@
            == "{\"amount\":5000}"@),
{
    let mut charms: Vec<CharmData> = Vec::new();
    charms.push(
        CharmData {
            app_id: "toad_token".to_owned(),
            app_tag: "token".to_owned(),
            data: "{\"amount\":5000}".to_owned(),
        },
    );
    let mut utxos: Vec<Utxo> = Vec::new();
    utxos.push(
        Utxo {
            txid: "abc123def456".to_owned(),
            vout: 0,
            value: 10000,
            script_pubkey: "0014...".to_owned(),
            confirmations: 6,
            charms: Some(charms),
        },
    );
    utxos
}

/// The receive address the address endpoint answers with.
pub fn new_address() -> (r: String)
    ensures
        r@ == "tb1qw508d6qejxtdg4y5r3zarvary0c5xw7kxpjzsx"@,
{
    "tb1qw508d6qejxtdg4y5r3zarvary0c5xw7kxpjzsx".to_owned()
}

} // verus!
