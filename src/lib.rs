//! Custody and conditional transfer of fungible value between another chain and
//! a local exchange router: inbound settlement with a fee and replay protection,
//! and outbound swaps whose failure is compensated by a refund.
//!
//! The host runtime's asynchronous calls are described by values of
//! [`CrossContractCall`]; a host adapter performs them in order and hands each
//! result back to the matching continuation.

pub mod account;
pub mod calls;
pub mod contract;
pub mod errors;
pub mod fee;
pub mod interfaces;
pub mod laws;
pub mod management;
pub mod processed;
pub mod settlement;
pub mod state;
pub mod token_receiver;
pub mod utils;
pub mod views;

pub use calls::{CrossContractCall, PromiseOutcome};
pub use contract::{Contract, ContractView};
pub use errors::ContractError;
pub use interfaces::{
    Action, RefFinanceReceiverMessage, SwapAction, SwapFromParams, SwapToParams,
    TokenReceiverMessage,
};
pub use state::ContractState;
