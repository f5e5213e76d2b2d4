use vstd::prelude::*;
use crate::account::is_valid_account_id;
use crate::calls::{expect_single_result, CrossContractCall, PromiseOutcome};
use crate::contract::Contract;
use crate::errors::ContractError;
use crate::fee::amount_after_fee;
use crate::interfaces::{Action, RefFinanceReceiverMessage, SwapAction, SwapFromParams};

verus! {

impl Contract {
    /// Delivers to a local user the value that was deposited on the other chain,
    /// less the fee, which is added to the accumulated fee. With a router
    /// instruction the value is swapped first, and the swap's output goes to the
    /// user. Only the relayer may call this, only while the contract runs, and
    /// only for a settlement not processed yet; its hash is recorded by the
    /// continuation that ends the returned calls, once they have succeeded.
    pub fn swap_tokens_to_user_with_fee(
        &mut self,
        caller: &String,
        params: SwapFromParams,
        msg: Option<RefFinanceReceiverMessage>,
    ) -> (r: Result<Vec<CrossContractCall>, ContractError>)
        requires
            old(self)@.wf(),
        ensures
            final(self)@.wf(),
            match old(self)@.inbound_error(caller@, params, msg) {
                Some(e) => {
                    &&& r == Err::<Vec<CrossContractCall>, ContractError>(e)
                    &&& final(self)@ == old(self)@
                },
                None => {
                    &&& r is Ok
                    &&& old(self)@.inbound_calls(params, msg, r->Ok_0@)
                    &&& final(self)@ == old(self)@.with_fee_collected(params.amount_in_with_fee)
                },
            },
    {
        self.assert_contract_running()?;
        self.assert_relayer(caller)?;
        if !(is_valid_account_id(&params.new_address) && is_valid_account_id(&params.token_out)) {
            return Err(ContractError::InvalidAccountId);
        }
        self.validate_swap_from(&params)?;
        if self.processed_tx.contains(&params.original_tx_hash) {
            return Err(ContractError::SwapAlreadyProcessed);
        }
        match &msg {
            Some(RefFinanceReceiverMessage::ExecuteSwap { referal_id, force: _, actions }) => {
                match referal_id {
                    Some(id) => {
                        if !is_valid_account_id(id) {
                            return Err(ContractError::InvalidAccountId);
                        }
                    },
                    None => {},
                }
                if actions.len() == 0 {
                    return Err(ContractError::EmptyRouterActions);
                }
            },
            None => {},
        }
        let amount_in_without_fee = amount_after_fee(
            params.amount_in_with_fee,
            self.fee_amount_of_blockchain,
        );
        let fee = params.amount_in_with_fee - amount_in_without_fee;
        if fee > u128::MAX - self.acc_token_fee {
            return Err(ContractError::FeeOverflow);
        }
        self.acc_token_fee = self.acc_token_fee + fee;
        assert(self@.fee_amounts == old(self)@.fee_amounts);
        match msg {
            Some(RefFinanceReceiverMessage::ExecuteSwap { referal_id, force, mut actions }) => {
                let first = match &actions[0] {
                    Action::Swap(swap_action) => Action::Swap(
                        SwapAction {
                            pool_id: swap_action.pool_id,
                            token_in: swap_action.token_in.clone(),
                            amount_in: Some(amount_in_without_fee),
                            token_out: swap_action.token_out.clone(),
                            min_amount_out: swap_action.min_amount_out,
                        },
                    ),
                };
                actions.set(0, first);
                let msg_without_fee = RefFinanceReceiverMessage::ExecuteSwap {
                    referal_id,
                    force,
                    actions,
                };
                Ok(
                    vec![
                        CrossContractCall::FtTransferCall {
                            token: self.transfer_token.clone(),
                            receiver_id: self.blockchain_router.clone(),
                            amount: amount_in_without_fee,
                            msg: Some(msg_without_fee),
                        },
                        CrossContractCall::FtTransfer {
                            token: params.token_out,
                            receiver_id: params.new_address,
                            amount: params.amount_out_min,
                        },
                        CrossContractCall::AfterSwapFrom {
                            original_tx_hash: params.original_tx_hash,
                        },
                    ],
                )
            },
            None => Ok(
                vec![
                    CrossContractCall::FtTransfer {
                        token: self.transfer_token.clone(),
                        receiver_id: params.new_address,
                        amount: amount_in_without_fee,
                    },
                    CrossContractCall::AfterSwapFrom { original_tx_hash: params.original_tx_hash },
                ],
            ),
        }
    }

    /// Ends an inbound settlement: records its hash when the calls before it
    /// succeeded, and changes nothing when they failed, so that the relayer may
    /// submit the settlement again.
    pub fn callback_after_swap_from(
        &mut self,
        results: &Vec<PromiseOutcome>,
        original_tx_hash: String,
    ) -> (r: Result<(), ContractError>)
        requires
            old(self)@.wf(),
        ensures
            final(self)@.wf(),
            final(self)@ == old(self)@.after_swap_from(results@, original_tx_hash@),
            r == (match crate::calls::single_result(results@) {
                Ok(_) => Ok(()),
                Err(e) => Err(e),
            }),
    {
        let succeeded = expect_single_result(results)?;
        if succeeded {
            self.processed_tx.insert(original_tx_hash);
        }
        assert(self@.fee_amounts == old(self)@.fee_amounts);
        Ok(())
    }
}

} // verus!
