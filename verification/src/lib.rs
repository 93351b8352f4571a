//! Client library for the Charms spell proving service.
//!
//! The library renders spell templates, validates rendered spells,
//! models the retrying submission protocol to the remote prover as an
//! explicit state machine, and parses the prover's responses. The
//! transport itself — the HTTP exchange and the backoff sleeps — is the
//! caller's; it feeds each attempt's event back into the machine.

pub mod charms;
pub mod health;
mod ids;
pub mod orders;
pub mod prover;
pub mod render;
pub mod response;
pub mod spells;
pub mod validate;
pub mod wallet;

pub use charms::{CharmInfo, CharmsService, ProveStartOutcome, SpellProveRequest};
pub use health::{health_response, HealthResponse};
pub use orders::{
    cancel_order_response, create_order_response, fill_order_response, list_orders_response,
    mock_open_order, partial_fill_order_response, Chain, CreateOrderRequest, CreateOrderResponse,
    FillOrderRequest, FillOrderResponse, ListOrdersQuery, ListOrdersResponse, Order, OrderStatus,
    SpellData,
};
pub use prover::{
    classify, start_state, step, AttemptEvent, AttemptOutcome, ProveError, RetryState, Transition,
    TransientKind, ATTEMPT_TIMEOUT_SECS, INITIAL_BACKOFF_SECS, MAX_ATTEMPTS,
};
pub use render::{render, Bindings};
pub use response::{parse, ParseError, ProvedTransaction};
pub use spells::{
    mock_broadcast_response, mock_prove_spell_response, not_implemented_broadcast,
    prove_failure_response, prove_success_response, transaction_status_snapshot, BroadcastRequest,
    BroadcastResponse, InputToSign, ProveSpellResponse, TransactionData, TransactionStatus,
};
pub use validate::{validate_spell, ValidationError};
pub use wallet::{
    balance_snapshot, connect_wallet_response, new_address, utxo_snapshot, CharmData,
    ConnectWalletRequest, ConnectWalletResponse, TokenBalance, Utxo, WalletBalance,
};
