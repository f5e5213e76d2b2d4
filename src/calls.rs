use vstd::prelude::*;
use crate::errors::ContractError;
use crate::interfaces::{RefFinanceReceiverMessage, SwapAction};

verus! {

/// One asynchronous call to a collaborator. An entry point returns a sequence
/// of them: the host issues them in order, each one after its predecessor has
/// completed, and the continuations (`AfterSwapFrom`, `AfterSwapTo`) receive the
/// outcome of the call just before them.
#[derive(Clone, Debug, PartialEq, Eq)]
pub enum CrossContractCall {
    /// `ft_transfer` on the ledger of `token`: move `amount` to `receiver_id`.
    FtTransfer { token: String, receiver_id: String, amount: u128 },
    /// `ft_transfer_call` on the ledger of `token`: move `amount` to
    /// `receiver_id` together with a message for it (`None`: the empty message).
    FtTransferCall {
        token: String,
        receiver_id: String,
        amount: u128,
        msg: Option<RefFinanceReceiverMessage>,
    },
    /// `swap` on the router over the given legs.
    RouterSwap { router: String, actions: Vec<SwapAction> },
    /// `withdraw` on the router: take `amount` of `token_id` out of it.
    RouterWithdraw { router: String, token_id: String, amount: u128 },
    /// This contract's continuation after an inbound settlement.
    AfterSwapFrom { original_tx_hash: String },
    /// This contract's continuation after an outbound swap.
    AfterSwapTo { sender_id: String, token_in: String, amount_in: u128, min_amount_out: u128 },
}

/// The outcome of a collaborator call, as the host hands it to a continuation.
#[derive(Clone, Debug, PartialEq, Eq)]
pub enum PromiseOutcome {
    Successful(Vec<u8>),
    Failed,
    NotReady,
}

/// What a continuation reads from the results it was given: `Ok(true)` for a
/// success, `Ok(false)` for a failure, and an error where there is not exactly
/// one result or the result is not known yet.
pub open spec fn single_result(results: Seq<PromiseOutcome>) -> Result<bool, ContractError> {
    if results.len() != 1 {
        Err(ContractError::UnexpectedResultCount)
    } else {
        match results[0] {
            PromiseOutcome::Successful(_) => Ok(true),
            PromiseOutcome::Failed => Ok(false),
            PromiseOutcome::NotReady => Err(ContractError::ResultNotReady),
        }
    }
}

/// Checks that exactly one predecessor result was delivered and reads it.
pub fn expect_single_result(results: &Vec<PromiseOutcome>) -> (r: Result<bool, ContractError>)
    ensures
        r == single_result(results@),
{
    if results.len() != 1 {
        return Err(ContractError::UnexpectedResultCount);
    }
    match &results[0] {
        PromiseOutcome::Successful(_) => Ok(true),
        PromiseOutcome::Failed => Ok(false),
        PromiseOutcome::NotReady => Err(ContractError::ResultNotReady),
    }
}

} // verus!
