use vstd::prelude::*;
use crate::account::valid_account_id;
use crate::calls::{single_result, CrossContractCall, PromiseOutcome};
use crate::contract::{refund_calls, ContractView};
use crate::errors::ContractError;
use crate::fee::{amount_without_fee, fee_of};
use crate::interfaces::{RefFinanceReceiverMessage, SwapFromParams, SwapToParams, TokenReceiverMessage};

verus! {

/// The target parameters that an outbound instruction carries.
pub open spec fn target_of(msg: TokenReceiverMessage) -> SwapToParams {
    match msg {
        TokenReceiverMessage::SwapTokensToOther { swap_actions, swap_to_params } => swap_to_params,
        TokenReceiverMessage::SwapTransferTokensToOther { swap_to_params } => swap_to_params,
    }
}

/// A settlement is settled once: when an accepted settlement's calls succeed,
/// its continuation records the hash, and every later submission of that hash is
/// refused, whoever submits it and whatever it carries. When the calls fail, the
/// continuation leaves the state as it was and the hash stays open.
pub proof fn lemma_settlement_idempotent(
    c: ContractView,
    caller: Seq<char>,
    p: SwapFromParams,
    msg: Option<RefFinanceReceiverMessage>,
    results: Seq<PromiseOutcome>,
    caller_again: Seq<char>,
    again: SwapFromParams,
    msg_again: Option<RefFinanceReceiverMessage>,
)
    requires
        c.inbound_error(caller, p, msg) is None,
        again.original_tx_hash@ == p.original_tx_hash@,
    ensures
        !c.processed_tx.contains(p.original_tx_hash@),
        ({
            let accepted = c.with_fee_collected(p.amount_in_with_fee);
            let after = accepted.after_swap_from(results, p.original_tx_hash@);
            &&& single_result(results) == Ok::<bool, ContractError>(true) ==> {
                &&& after.processed_tx == c.processed_tx.insert(p.original_tx_hash@)
                &&& after.inbound_error(caller_again, again, msg_again) is Some
            }
            &&& single_result(results) != Ok::<bool, ContractError>(true) ==> after == accepted
                && !after.processed_tx.contains(p.original_tx_hash@)
        }),
{
    lemma_processed_settlement_rejected(
        c.with_fee_collected(p.amount_in_with_fee).after_swap_from(results, p.original_tx_hash@),
        caller_again,
        again,
        msg_again,
    );
}

/// A settlement whose hash is recorded is refused.
pub proof fn lemma_processed_settlement_rejected(
    c: ContractView,
    caller: Seq<char>,
    p: SwapFromParams,
    msg: Option<RefFinanceReceiverMessage>,
)
    ensures
        c.processed_tx.contains(p.original_tx_hash@) ==> c.inbound_error(caller, p, msg) is Some,
{
}

/// An accepted settlement raises the accumulated fee by exactly the deposit less
/// what is passed on, and what is passed on and that fee add up to the deposit.
pub proof fn lemma_settlement_fee_accrual(
    c: ContractView,
    caller: Seq<char>,
    p: SwapFromParams,
    msg: Option<RefFinanceReceiverMessage>,
)
    requires
        c.wf(),
        c.inbound_error(caller, p, msg) is None,
    ensures
        c.with_fee_collected(p.amount_in_with_fee).acc_token_fee == c.acc_token_fee
            + p.amount_in_with_fee - amount_without_fee(
            p.amount_in_with_fee as int,
            c.fee_amount_of_blockchain as int,
        ),
        amount_without_fee(p.amount_in_with_fee as int, c.fee_amount_of_blockchain as int)
            + fee_of(p.amount_in_with_fee as int, c.fee_amount_of_blockchain as int)
            == p.amount_in_with_fee,
{
    crate::fee::lemma_fee_conservation(p.amount_in_with_fee, c.fee_amount_of_blockchain);
}

/// An amount is within the bounds exactly when `min <= amount <= max`; an
/// inbound settlement, a deposit of the transfer token, and a swap whose last
/// leg asks for a minimum output are each refused when that amount is out of
/// the bounds.
pub proof fn lemma_bounds_enforced(
    c: ContractView,
    caller: Seq<char>,
    p: SwapFromParams,
    msg: Option<RefFinanceReceiverMessage>,
    token_in: Seq<char>,
    sender_id: Seq<char>,
    amount: u128,
    out_msg: TokenReceiverMessage,
)
    ensures
        c.amount_error(amount) is None <==> c.min_token_amount <= amount
            <= c.max_token_amount,
        c.amount_error(p.amount_in_with_fee) is Some ==> c.inbound_error(caller, p, msg) is Some,
        out_msg is SwapTransferTokensToOther && c.amount_error(amount) is Some ==> c.outbound_error(
            token_in,
            sender_id,
            amount,
            out_msg,
        ) is Some,
        out_msg is SwapTokensToOther && out_msg->swap_actions@.len() > 0 && c.amount_error(
            out_msg->swap_actions@.last().min_amount_out,
        ) is Some ==> c.outbound_error(token_in, sender_id, amount, out_msg) is Some,
{
}

/// An outbound deposit is refused when its target chain is this chain, is not
/// enabled, or its path does not start with the relay address registered for
/// that chain.
pub proof fn lemma_bad_target_rejected(
    c: ContractView,
    token_in: Seq<char>,
    sender_id: Seq<char>,
    amount: u128,
    msg: TokenReceiverMessage,
)
    requires
        ({
            let t = target_of(msg);
            ||| t.blockchain == c.num_of_this_blockchain
            ||| !c.existing_other_blockchain.contains(t.blockchain)
            ||| !(t.second_path@.len() > 0 && c.rubic_addresses.contains_key(t.blockchain)
                && t.second_path@[0]@ == c.rubic_addresses[t.blockchain]@)
        }),
    ensures
        c.swap_to_error(target_of(msg)) is Some,
        c.outbound_error(token_in, sender_id, amount, msg) is Some,
{
}

/// When a swap of an accepted deposit fails, the continuation that ends the
/// deposit's calls gives back to the depositor exactly the amount deposited, in
/// the token deposited, which is not the transfer token.
pub proof fn lemma_failed_swap_refunds_deposit(
    c: ContractView,
    token_in: String,
    sender_id: String,
    amount: u128,
    msg: TokenReceiverMessage,
    later: ContractView,
    results: Seq<PromiseOutcome>,
)
    requires
        valid_account_id(token_in@),
        msg is SwapTokensToOther,
        c.outbound_error(token_in@, sender_id@, amount, msg) is None,
        single_result(results) == Ok::<bool, ContractError>(false),
    ensures
        ({
            let calls = c.outbound_calls(token_in, sender_id, amount, msg);
            &&& calls.len() > 0
            &&& calls.last() matches CrossContractCall::AfterSwapTo {
                sender_id: s,
                token_in: t,
                amount_in: a,
                min_amount_out: m,
            } && s == sender_id && t == token_in && a == amount && later.after_swap_to(
                results,
                s,
                t,
                a,
                m,
            ) == Ok::<Seq<CrossContractCall>, ContractError>(
                refund_calls(later.blockchain_router, sender_id, token_in, amount),
            )
        }),
        token_in@ != c.transfer_token@,
{
}

/// While the contract is paused, both settlement entry points refuse every
/// request.
pub proof fn lemma_paused_rejects(
    c: ContractView,
    caller: Seq<char>,
    p: SwapFromParams,
    msg: Option<RefFinanceReceiverMessage>,
    token_in: Seq<char>,
    sender_id: Seq<char>,
    amount: u128,
    out_msg: TokenReceiverMessage,
)
    requires
        !c.is_running,
    ensures
        c.inbound_error(caller, p, msg) == Some(ContractError::ContractPaused),
        c.outbound_error(token_in, sender_id, amount, out_msg) == Some(
            ContractError::ContractPaused,
        ),
{
}

} // verus!
