use charms_prover_client::{
    balance_snapshot, cancel_order_response, connect_wallet_response, create_order_response,
    fill_order_response, health_response, list_orders_response, mock_broadcast_response,
    mock_open_order, mock_prove_spell_response, new_address, not_implemented_broadcast,
    partial_fill_order_response, prove_failure_response, prove_success_response,
    transaction_status_snapshot, utxo_snapshot, Chain, ConnectWalletRequest, CreateOrderRequest,
    FillOrderRequest, ListOrdersQuery, OrderStatus,
};

fn empty_query() -> ListOrdersQuery {
    ListOrdersQuery {
        status: None,
        offer_token: None,
        want_token: None,
        maker_address: None,
        source_chain: None,
        dest_chain: None,
        limit: None,
        offset: None,
    }
}

#[test]
fn health_is_healthy() {
    let r = health_response("0.1.0".to_string());
    assert_eq!(r.status, "healthy");
    assert_eq!(r.version, "0.1.0");
}

#[test]
fn listing_defaults_paging() {
    let r = list_orders_response(empty_query());
    assert_eq!(r.total, 1);
    assert_eq!(r.orders.len(), 1);
    assert_eq!(r.limit, 20);
    assert_eq!(r.offset, 0);
    assert_eq!(r.orders[0].id.len(), 36);
    assert_eq!(r.orders[0].status, OrderStatus::Open);
    assert_eq!(r.orders[0].utxo_id.as_deref(), Some("abc123:0"));
}

#[test]
fn listing_echoes_paging() {
    let mut q = empty_query();
    q.limit = Some(5);
    q.offset = Some(40);
    let r = list_orders_response(q);
    assert_eq!(r.limit, 5);
    assert_eq!(r.offset, 40);
}

#[test]
fn order_lookup_echoes_the_id() {
    let r = mock_open_order("some-id".to_string());
    assert_eq!(r.id, "some-id");
    assert_eq!(r.status, OrderStatus::Open);
    assert_eq!(r.maker_address, "tb1qw508d6qejxtdg4y5r3zarvary0c5xw7kxpjzsx");
    assert_eq!(r.offer_token, "TOAD");
    assert_eq!(r.filled_amount, "0");
    assert_eq!(r.created_at, r.updated_at);
}

#[test]
fn created_order_carries_the_request() {
    let req = CreateOrderRequest {
        maker_address: "maker".to_string(),
        offer_token: "TOAD".to_string(),
        offer_amount: "7".to_string(),
        want_token: "BTC".to_string(),
        want_amount: "9".to_string(),
        source_chain: Chain::Bitcoin,
        dest_chain: Chain::Cardano,
        allow_partial: false,
        expiry_blocks: 144,
        funding_utxo: "txid:1".to_string(),
    };
    let r = create_order_response(req, "version: 8".to_string());
    assert_eq!(r.order.maker_address, "maker");
    assert_eq!(r.order.offer_amount, "7");
    assert_eq!(r.order.want_amount, "9");
    assert_eq!(r.order.dest_chain, Chain::Cardano);
    assert!(!r.order.allow_partial);
    assert_eq!(r.order.status, OrderStatus::Open);
    assert_eq!(r.order.expiry_height, 850000 + 144);
    assert_eq!(r.order.utxo_id.as_deref(), Some("txid:1"));
    assert_eq!(r.order.id.len(), 36);
    assert_eq!(r.spell.spell_yaml, "version: 8");
    assert_eq!(r.spell.app_binary, "");
    assert!(r.spell.prev_txs.is_empty());
    assert!(r.unsigned_txs.is_empty());
}

#[test]
fn filled_order_is_filled() {
    let r = fill_order_response("id-1".to_string(), "spell".to_string());
    assert_eq!(r.order.id, "id-1");
    assert_eq!(r.order.status, OrderStatus::Filled);
    assert_eq!(r.order.filled_amount, "1000");
    assert!(r.order.utxo_id.is_none());
}

#[test]
fn cancelled_order_is_cancelled() {
    let r = cancel_order_response("id-2".to_string());
    assert_eq!(r.id, "id-2");
    assert_eq!(r.status, OrderStatus::Cancelled);
    assert!(r.utxo_id.is_none());
}

#[test]
fn partial_fill_uses_the_requested_amount() {
    let req = FillOrderRequest {
        taker_address: "taker".to_string(),
        taker_utxo: "t:0".to_string(),
        fill_amount: Some("250".to_string()),
    };
    let r = partial_fill_order_response("id-3".to_string(), req, "spell".to_string());
    assert_eq!(r.order.status, OrderStatus::PartiallyFilled);
    assert_eq!(r.order.filled_amount, "250");
    assert_eq!(r.order.utxo_id.as_deref(), Some("abc123:1"));
}

#[test]
fn partial_fill_defaults_to_five_hundred() {
    let req = FillOrderRequest {
        taker_address: "taker".to_string(),
        taker_utxo: "t:0".to_string(),
        fill_amount: None,
    };
    let r = partial_fill_order_response("id-4".to_string(), req, "spell".to_string());
    assert_eq!(r.order.filled_amount, "500");
}

#[test]
fn mock_prove_spell_has_commit_then_spell() {
    let r = mock_prove_spell_response();
    assert!(r.success);
    assert_eq!(r.total_fee, 500);
    assert!(r.error.is_none());
    assert_eq!(r.transactions.len(), 2);
    assert_eq!(r.transactions[0].txid, "mock_commit_txid");
    assert_eq!(r.transactions[0].inputs_to_sign.len(), 1);
    assert_eq!(r.transactions[0].inputs_to_sign[0].sighash_type, "SIGHASH_ALL");
    assert_eq!(r.transactions[1].txid, "mock_spell_txid");
    assert!(r.transactions[1].inputs_to_sign.is_empty());
}

#[test]
fn prove_endpoint_outcomes() {
    let ok = prove_success_response();
    assert!(ok.success && ok.transactions.is_empty() && ok.error.is_none());
    let failed = prove_failure_response("Prover API error: busy".to_string());
    assert!(!failed.success);
    assert_eq!(failed.error.as_deref(), Some("Prover API error: busy"));
}

#[test]
fn mock_broadcast_mints_one_txid_per_transaction() {
    let signed = vec!["aa".to_string(), "bb".to_string(), "cc".to_string()];
    let r = mock_broadcast_response(&signed);
    assert!(r.success);
    assert_eq!(r.txids.len(), 3);
    for txid in &r.txids {
        assert!(txid.starts_with("mock_txid_"));
        assert_eq!(txid.len(), 46);
    }
    assert_ne!(r.txids[0], r.txids[1]);
}

#[test]
fn real_broadcast_is_not_implemented() {
    let r = not_implemented_broadcast();
    assert!(!r.success);
    assert!(r.txids.is_empty());
    assert_eq!(r.error.as_deref(), Some("Not implemented"));
}

#[test]
fn transaction_status_is_unconfirmed() {
    let r = transaction_status_snapshot("deadbeef".to_string());
    assert_eq!(r.txid, "deadbeef");
    assert!(!r.confirmed);
    assert_eq!(r.confirmations, 0);
    assert!(r.block_height.is_none());
    assert!(r.block_hash.is_none());
}

#[test]
fn wallet_endpoints_answer_their_snapshots() {
    let c = connect_wallet_response(ConnectWalletRequest {
        address: "tb1qabc".to_string(),
        signature: None,
        message: None,
    });
    assert!(c.connected);
    assert_eq!(c.address, "tb1qabc");
    assert_eq!(c.network, "testnet4");

    let b = balance_snapshot();
    assert_eq!(b.btc_balance, 50000);
    assert_eq!(b.tokens.len(), 1);
    assert_eq!(b.tokens[0].ticker, "TOAD");

    let u = utxo_snapshot();
    assert_eq!(u.len(), 1);
    assert_eq!(u[0].value, 10000);
    let charms = u[0].charms.as_ref().expect("the sample UTXO carries charms");
    assert_eq!(charms[0].app_id, "toad_token");
    assert_eq!(charms[0].data, "{\"amount\":5000}");

    assert_eq!(new_address(), "tb1qw508d6qejxtdg4y5r3zarvary0c5xw7kxpjzsx");
}
