//! Order management: the order model and the responses the order
//! endpoints build. Persistence is not wired up yet, so the lookups
//! answer with a fixed sample order.

use vstd::prelude::*;

use crate::ids::{fresh_uuid, now_rfc3339};

verus! {

/// An order's lifecycle state.
#[derive(Clone, Copy, Debug, PartialEq, Eq, Structural)]
pub enum OrderStatus {
    Open,
    Filled,
    Cancelled,
    Expired,
    PartiallyFilled,
}

/// A chain identifier.
#[derive(Clone, Copy, Debug, PartialEq, Eq, Structural)]
pub enum Chain {
    Bitcoin,
    Cardano,
}

/// A swap order.
#[derive(Clone, Debug)]
pub struct Order {
    pub id: String,
    pub maker_address: String,
    pub offer_token: String,
    pub offer_amount: String,
    pub want_token: String,
    pub want_amount: String,
    pub source_chain: Chain,
    pub dest_chain: Chain,
    pub status: OrderStatus,
    pub allow_partial: bool,
    pub filled_amount: String,
    pub expiry_height: u64,
    pub created_at: String,
    pub updated_at: String,
    pub utxo_id: Option<String>,
}

pub struct CreateOrderRequest {
    pub maker_address: String,
    pub offer_token: String,
    pub offer_amount: String,
    pub want_token: String,
    pub want_amount: String,
    pub source_chain: Chain,
    pub dest_chain: Chain,
    pub allow_partial: bool,
    pub expiry_blocks: u64,
    pub funding_utxo: String,
}

pub struct CreateOrderResponse {
    pub order: Order,
    pub spell: SpellData,
    pub unsigned_txs: Vec<String>,
}

/// The spell material a caller signs against.
pub struct SpellData {
    pub spell_yaml: String,
    pub app_binary: String,
    pub prev_txs: Vec<String>,
}

pub struct FillOrderRequest {
    pub taker_address: String,
    pub taker_utxo: String,
    pub fill_amount: Option<String>,
}

pub struct FillOrderResponse {
    pub order: Order,
    pub spell: SpellData,
    pub unsigned_txs: Vec<String>,
}

pub struct ListOrdersQuery {
    pub status: Option<String>,
    pub offer_token: Option<String>,
    pub want_token: Option<String>,
    pub maker_address: Option<String>,
    pub source_chain: Option<String>,
    pub dest_chain: Option<String>,
    pub limit: Option<u32>,
    pub offset: Option<u32>,
}

pub struct ListOrdersResponse {
    pub orders: Vec<Order>,
    pub total: u64,
    pub limit: u32,
    pub offset: u32,
}

/// The fixed fields every sample order carries.
pub open spec fn sample_order_fields(o: Order) -> bool {
    &&& o.maker_address@ == "tb1qw508d6qejxtdg4y5r3zarvary0c5xw7kxpjzsx"@
    &&& o.offer_token@ == "TOAD"@
    &&& o.offer_amount@ == "1000"@
    &&& o.want_token@ == "BTC"@
    &&& o.want_amount@ == "10000"@
    &&& o.source_chain is Bitcoin
    &&& o.dest_chain is Bitcoin
    &&& o.allow_partial
    &&& o.expiry_height == 850000
    &&& o.created_at@ == o.updated_at@
}

/// The sample order, in the given state.
fn sample_order(
    id: String,
    status: OrderStatus,
    filled_amount: String,
    utxo_id: Option<String>,
) -> (r: Order)
    ensures
        sample_order_fields(r),
        r.id == id,
        r.status == status,
        r.filled_amount == filled_amount,
        r.utxo_id == utxo_id,
{
    let now = now_rfc3339();
    let updated_at = now.clone();
    Order {
        id,
        maker_address: "tb1qw508d6qejxtdg4y5r3zarvary0c5xw7kxpjzsx".to_owned(),
        offer_token: "TOAD".to_owned(),
        offer_amount: "1000".to_owned(),
        want_token: "BTC".to_owned(),
        want_amount: "10000".to_owned(),
        source_chain: Chain::Bitcoin,
        dest_chain: Chain::Bitcoin,
        status,
        allow_partial: true,
        filled_amount,
        expiry_height: 850000,
        created_at: now,
        updated_at,
        utxo_id,
    }
}

/// The listing the list endpoint answers with: one open sample order,
/// and the caller's paging echoed back with its defaults.
pub fn list_orders_response(params: ListOrdersQuery) -> (r: ListOrdersResponse)
    ensures
        r.total == 1,
        r.orders@.len() == 1,
        sample_order_fields(r.orders@[0]),
        r.orders@[0].status is Open,
        r.orders@[0].filled_amount@ == "0"@,
        r.orders@[0].id@.len() == 36,
        (r.orders@[0].utxo_id matches Some(u) && u@ == "abc123:0"@),
        r.limit == (match params.limit {
            Some(l) => l,
            None => 20u32,
        }),
        r.offset == (match params.offset {
            Some(o) => o,
            None => 0u32,
        }),
{
    let id = fresh_uuid();
    let order = sample_order(id, OrderStatus::Open, "0".to_owned(), Some("abc123:0".to_owned()));
    let mut orders: Vec<Order> = Vec::new();
    orders.push(order);
    let limit = match params.limit {
        Some(l) => l,
        None => 20,
    };
    let offset = match params.offset {
        Some(o) => o,
        None => 0,
    };
    ListOrdersResponse { orders, total: 1, limit, offset }
}

/// The order the lookup endpoint answers with for `id`.
pub fn mock_open_order(id: String) -> (r: Order)
    ensures
        sample_order_fields(r),
        r.id == id,
        r.status is Open,
        r.filled_amount@ == "0"@,
        (r.utxo_id matches Some(u) && u@ == "abc123:0"@),
{
    sample_order(id, OrderStatus::Open, "0".to_owned(), Some("abc123:0".to_owned()))
}

/// The response to creating an order: the new open order carrying the
/// request's terms, a fresh id, and the creation spell material.
pub fn create_order_response(req: CreateOrderRequest, spell_template: String) -> (
    r: CreateOrderResponse
)
    requires
        req.expiry_blocks <= u64::MAX - 850000,
    ensures
        r.order.id@.len() == 36,
        r.order.maker_address == req.maker_address,
        r.order.offer_token == req.offer_token,
        r.order.offer_amount == req.offer_amount,
        r.order.want_token == req.want_token,
        r.order.want_amount == req.want_amount,
        r.order.source_chain == req.source_chain,
        r.order.dest_chain == req.dest_chain,
        r.order.status is Open,
        r.order.allow_partial == req.allow_partial,
        r.order.filled_amount@ == "0"@,
        r.order.expiry_height == 850000 + req.expiry_blocks,
        r.order.created_at@ == r.order.updated_at@,
        r.order.utxo_id == Some(req.funding_utxo),
        r.spell.spell_yaml == spell_template,
        r.spell.app_binary@.len() == 0,
        r.spell.prev_txs@.len() == 0,
        r.unsigned_txs@.len() == 0,
{
    let id = fresh_uuid();
    let now = now_rfc3339();
    let updated_at = now.clone();
    let order = Order {
        id,
        maker_address: req.maker_address,
        offer_token: req.offer_token,
        offer_amount: req.offer_amount,
        want_token: req.want_token,
        want_amount: req.want_amount,
        source_chain: req.source_chain,
        dest_chain: req.dest_chain,
        status: OrderStatus::Open,
        allow_partial: req.allow_partial,
        filled_amount: "0".to_owned(),
        expiry_height: 850000 + req.expiry_blocks,
        created_at: now,
        updated_at,
        utxo_id: Some(req.funding_utxo),
    };
    CreateOrderResponse {
        order,
        spell: SpellData {
            spell_yaml: spell_template,
            app_binary: String::new(),
            prev_txs: Vec::new(),
        },
        unsigned_txs: Vec::new(),
    }
}

/// The response to filling order `id` whole: the sample order, filled.
pub fn fill_order_response(id: String, spell_template: String) -> (r: FillOrderResponse)
    ensures
        sample_order_fields(r.order),
        r.order.id == id,
        r.order.status is Filled,
        r.order.filled_amount@ == "1000"@,
        r.order.utxo_id is None,
        r.spell.spell_yaml == spell_template,
        r.spell.app_binary@.len() == 0,
        r.spell.prev_txs@.len() == 0,
        r.unsigned_txs@.len() == 0,
{
    let order = sample_order(id, OrderStatus::Filled, "1000".to_owned(), None);
    FillOrderResponse {
        order,
        spell: SpellData {
            spell_yaml: spell_template,
            app_binary: String::new(),
            prev_txs: Vec::new(),
        },
        unsigned_txs: Vec::new(),
    }
}

/// The cancelled order the cancel endpoint answers with for `id`.
pub fn cancel_order_response(id: String) -> (r: Order)
    ensures
        sample_order_fields(r),
        r.id == id,
        r.status is Cancelled,
        r.filled_amount@ == "0"@,
        r.utxo_id is None,
{
    sample_order(id, OrderStatus::Cancelled, "0".to_owned(), None)
}

/// The response to partially filling order `id`: filled by the requested
/// amount, or by 500 when the request names none.
pub fn partial_fill_order_response(id: String, req: FillOrderRequest, spell_template: String) -> (
    r: FillOrderResponse
)
    ensures
        sample_order_fields(r.order),
        r.order.id == id,
        r.order.status is PartiallyFilled,
        (req.fill_amount matches Some(a) ==> r.order.filled_amount == a),
        req.fill_amount is None ==> r.order.filled_amount@ == "500"@,
        (r.order.utxo_id matches Some(u) && u@ == "abc123:1"@),
        r.spell.spell_yaml == spell_template,
        r.spell.app_binary@.len() == 0,
        r.spell.prev_txs@.len() == 0,
        r.unsigned_txs@.len() == 0,
{
    let filled = match req.fill_amount {
        Some(a) => a,
        None => "500".to_owned(),
    };
    let order = sample_order(
        id,
        OrderStatus::PartiallyFilled,
        filled,
        Some("abc123:1".to_owned()),
    );
    FillOrderResponse {
        order,
        spell: SpellData {
            spell_yaml: spell_template,
            app_binary: String::new(),
            prev_txs: Vec::new(),
        },
        unsigned_txs: Vec::new(),
    }
}

} // verus!
