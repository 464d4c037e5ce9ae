//! Pooled-asset vault core: exchange-rate share conversion, basis-point fee
//! extraction, pool ledger bookkeeping, and a bounded FIFO withdrawal queue
//! processed in batches with skip-or-stop semantics.
//!
//! Custody transfers, mint/burn, signature checks and event emission are the
//! hosting platform's business; this crate holds the deterministic state
//! transition logic that runs once an operation is admitted, and proves it
//! against the contracts below.

pub mod admin_deposit_usdc;
pub mod admin_update_config;
pub mod admin_withdraw_usdc;
pub mod calculation_utils;
pub mod cancel_withdrawal;
pub mod conservation;
pub mod errors;
pub mod events;
pub mod fee_collector_withdraw;
pub mod ids;
pub mod init_pool;
pub mod process_queue;
pub mod states;
pub mod update_exchange_rate;
pub mod user_deposit;
pub mod user_withdraw;
pub mod user_withdrawal_request;
pub mod validation_utils;

pub use ids::AccountId;
