use vstd::prelude::*;
use crate::account::is_valid_account_id;
use crate::calls::{expect_single_result, CrossContractCall, PromiseOutcome};
use crate::contract::{calls_of, refund_calls, Contract};
use crate::errors::ContractError;
use crate::interfaces::{SwapAction, TokenReceiverMessage};

verus! {

impl Contract {
    /// Receives a deposit of `amount` of `token_in` made by `sender_id` with an
    /// instruction. A deposit of another token than the transfer token is swapped
    /// into the transfer token in the router and forwarded toward the target
    /// chain, or refunded if the swap fails: the returned calls do that. A
    /// deposit of the transfer token is already on its way and needs no call.
    /// None of the deposit is given back at once.
    pub fn ft_on_transfer(
        &self,
        token_in: String,
        sender_id: String,
        amount: u128,
        msg: TokenReceiverMessage,
    ) -> (r: Result<Vec<CrossContractCall>, ContractError>)
        ensures
            calls_of(r) == (match self@.outbound_error(token_in@, sender_id@, amount, msg) {
                Some(e) => Err(e),
                None => Ok(self@.outbound_calls(token_in, sender_id, amount, msg)),
            }),
    {
        self.assert_contract_running()?;
        if !is_valid_account_id(&sender_id) {
            return Err(ContractError::InvalidAccountId);
        }
        match msg {
            TokenReceiverMessage::SwapTokensToOther { swap_actions, swap_to_params } => {
                self.validate_swap_actions(&swap_actions)?;
                self.validate_swap_to(&swap_to_params)?;
                self.validate_token_in_is_not_transfer(&token_in)?;
                let min_amount_out = swap_actions[swap_actions.len() - 1].min_amount_out;
                Ok(self.swap_tokens(sender_id, token_in, amount, min_amount_out, swap_actions))
            },
            TokenReceiverMessage::SwapTransferTokensToOther { swap_to_params } => {
                self.validate_swap_to(&swap_to_params)?;
                self.validate_amount_in(amount)?;
                self.validate_token_in_is_transfer(&token_in)?;
                Ok(Vec::new())
            },
        }
    }

    /// The calls that hand a deposit to the router, swap it along `actions`, and
    /// pass the outcome to the outbound continuation.
    pub(crate) fn swap_tokens(
        &self,
        sender_id: String,
        token_in: String,
        amount_in: u128,
        min_amount_out: u128,
        actions: Vec<SwapAction>,
    ) -> (r: Vec<CrossContractCall>)
        ensures
            r@ == self@.swap_calls(sender_id, token_in, amount_in, min_amount_out, actions),
    {
        vec![
            CrossContractCall::FtTransferCall {
                token: token_in.clone(),
                receiver_id: self.blockchain_router.clone(),
                amount: amount_in,
                msg: None,
            },
            CrossContractCall::RouterSwap {
                router: self.blockchain_router.clone(),
                actions,
            },
            CrossContractCall::AfterSwapTo {
                sender_id,
                token_in,
                amount_in,
                min_amount_out,
            },
        ]
    }

    /// Ends an outbound swap. After a successful swap it withdraws
    /// `min_amount_out` of the transfer token from the router toward the target
    /// chain. After a failed one it withdraws the deposit, `amount_in` of
    /// `token_in`, from the router and transfers it back to `sender_id`.
    pub fn callback_after_swap_to(
        &self,
        results: &Vec<PromiseOutcome>,
        sender_id: String,
        token_in: String,
        amount_in: u128,
        min_amount_out: u128,
    ) -> (r: Result<Vec<CrossContractCall>, ContractError>)
        ensures
            calls_of(r) == self@.after_swap_to(
                results@,
                sender_id,
                token_in,
                amount_in,
                min_amount_out,
            ),
    {
        let succeeded = expect_single_result(results)?;
        if succeeded {
            let withdraw = vec![
                CrossContractCall::RouterWithdraw {
                    router: self.blockchain_router.clone(),
                    token_id: self.transfer_token.clone(),
                    amount: min_amount_out,
                },
            ];
            assert(withdraw@ =~= seq![
                CrossContractCall::RouterWithdraw {
                    router: self@.blockchain_router,
                    token_id: self@.transfer_token,
                    amount: min_amount_out,
                },
            ]);
            Ok(withdraw)
        } else {
            if !is_valid_account_id(&token_in) {
                return Err(ContractError::InvalidAccountId);
            }
            let ghost router = self@.blockchain_router;
            let refund = vec![
                CrossContractCall::RouterWithdraw {
                    router: self.blockchain_router.clone(),
                    token_id: token_in.clone(),
                    amount: amount_in,
                },
                CrossContractCall::FtTransfer { token: token_in, receiver_id: sender_id, amount: amount_in },
            ];
            assert(refund@ =~= refund_calls(router, sender_id, token_in, amount_in));
            Ok(refund)
        }
    }
}

} // verus!
