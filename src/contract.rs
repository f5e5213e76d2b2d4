use vstd::prelude::*;
use std::collections::{HashMap, HashSet};
use crate::account::{is_valid_account_id, valid_account_id};
use crate::calls::{single_result, CrossContractCall, PromiseOutcome};
use crate::errors::ContractError;
use crate::fee::{amount_without_fee, fee_of, FEE_DENOMINATOR};
use crate::interfaces::{
    Action, RefFinanceReceiverMessage, SwapAction, SwapFromParams, SwapToParams,
    TokenReceiverMessage,
};
use crate::processed::ProcessedTransactions;

verus! {

broadcast use vstd::std_specs::hash::group_hash_axioms;

/// The contract's state as the contracts of its entry points speak of it.
pub ghost struct ContractView {
    pub owner: String,
    pub manager: String,
    pub relayer: String,
    pub transfer_token: String,
    pub blockchain_router: String,
    pub num_of_this_blockchain: u64,
    pub min_token_amount: u128,
    pub max_token_amount: u128,
    pub acc_token_fee: u128,
    /// Fee rate, in parts per million, of inbound settlements.
    pub fee_amount_of_blockchain: u128,
    /// Relay address registered for each target chain.
    pub rubic_addresses: Map<u64, String>,
    /// Fee rate registered for each target chain.
    pub fee_amounts: Map<u64, u128>,
    /// Chains that outbound swaps may target.
    pub existing_other_blockchain: Set<u64>,
    /// Hashes of completed inbound settlements.
    pub processed_tx: Set<Seq<char>>,
    pub is_running: bool,
}

/// The calls that give a failed outbound swap back to its sender: take the
/// deposit out of the router, then transfer it to the sender, both in the token
/// that was deposited.
pub open spec fn refund_calls(
    router: String,
    sender_id: String,
    token_in: String,
    amount_in: u128,
) -> Seq<CrossContractCall> {
    seq![
        CrossContractCall::RouterWithdraw { router: router, token_id: token_in, amount: amount_in },
        CrossContractCall::FtTransfer { token: token_in, receiver_id: sender_id, amount: amount_in },
    ]
}

/// The first leg of a router instruction with its input amount replaced.
pub open spec fn with_amount_in(action: Action, amount: u128) -> Action {
    match action {
        Action::Swap(s) => Action::Swap(
            SwapAction {
                pool_id: s.pool_id,
                token_in: s.token_in,
                amount_in: Some(amount),
                token_out: s.token_out,
                min_amount_out: s.min_amount_out,
            },
        ),
    }
}

/// Why a router instruction handed to an inbound settlement is refused.
pub open spec fn router_message_error(msg: Option<RefFinanceReceiverMessage>) -> Option<
    ContractError,
> {
    match msg {
        None => None,
        Some(RefFinanceReceiverMessage::ExecuteSwap { referal_id, force, actions }) => {
            if referal_id is Some && !valid_account_id(referal_id->Some_0@) {
                Some(ContractError::InvalidAccountId)
            } else if actions@.len() == 0 {
                Some(ContractError::EmptyRouterActions)
            } else {
                None
            }
        },
    }
}

/// `Ok(())` where no error is given, else that error.
pub open spec fn result_of(e: Option<ContractError>) -> Result<(), ContractError> {
    match e {
        Some(e) => Err(e),
        None => Ok(()),
    }
}

/// The calls of a plan as a sequence.
pub open spec fn calls_of(r: Result<Vec<CrossContractCall>, ContractError>) -> Result<
    Seq<CrossContractCall>,
    ContractError,
> {
    match r {
        Ok(v) => Ok(v@),
        Err(e) => Err(e),
    }
}

impl ContractView {
    /// Fee rates are below one million parts per million, and the configured
    /// accounts are well-formed account ids.
    pub open spec fn wf(self) -> bool {
        &&& self.fee_amount_of_blockchain < 1_000_000
        &&& forall|b: u64| #[trigger]
            self.fee_amounts.contains_key(b) ==> self.fee_amounts[b] < 1_000_000
        &&& valid_account_id(self.owner@)
        &&& valid_account_id(self.manager@)
        &&& valid_account_id(self.relayer@)
        &&& valid_account_id(self.transfer_token@)
        &&& valid_account_id(self.blockchain_router@)
    }

    /// Refuses a caller other than the owner.
    pub open spec fn owner_error(self, caller: Seq<char>) -> Option<ContractError> {
        if caller != self.owner@ {
            Some(ContractError::OnlyOwner)
        } else {
            None
        }
    }

    /// Refuses a caller other than the owner and the manager.
    pub open spec fn owner_or_manager_error(self, caller: Seq<char>) -> Option<ContractError> {
        if caller != self.owner@ && caller != self.manager@ {
            Some(ContractError::OnlyOwnerOrManager)
        } else {
            None
        }
    }

    /// Refuses to replace one of the configured accounts unless the owner asks
    /// and the new account is well formed.
    pub open spec fn account_update_error(self, caller: Seq<char>, account_id: Seq<char>) -> Option<
        ContractError,
    > {
        if self.owner_error(caller) is Some {
            self.owner_error(caller)
        } else if !valid_account_id(account_id) {
            Some(ContractError::InvalidAccountId)
        } else {
            None
        }
    }

    /// Why `amount` is out of the transferable bounds, if it is.
    pub open spec fn amount_error(self, amount: u128) -> Option<ContractError> {
        if amount < self.min_token_amount {
            Some(ContractError::NotEnoughTokens)
        } else if amount > self.max_token_amount {
            Some(ContractError::TooMuchTokens)
        } else {
            None
        }
    }

    /// Why the target of an outbound swap is refused, if it is.
    pub open spec fn swap_to_error(self, p: SwapToParams) -> Option<ContractError> {
        if p.new_address@.len() == 0 {
            Some(ContractError::EmptyNewAddress)
        } else if p.second_path@.len() == 0 {
            Some(ContractError::EmptySecondPath)
        } else if !self.existing_other_blockchain.contains(p.blockchain) || p.blockchain
            == self.num_of_this_blockchain {
            Some(ContractError::WrongBlockchain)
        } else if !self.rubic_addresses.contains_key(p.blockchain) {
            Some(ContractError::WrongBlockchainNumber)
        } else if p.second_path@[0]@ != self.rubic_addresses[p.blockchain]@ {
            Some(ContractError::FirstAddressNotRubic)
        } else {
            None
        }
    }

    /// Why the swap legs of an outbound swap are refused, if they are.
    pub open spec fn swap_actions_error(self, actions: Seq<SwapAction>) -> Option<ContractError> {
        if actions.len() == 0 {
            Some(ContractError::EmptySwapActions)
        } else if self.amount_error(actions.last().min_amount_out) is Some {
            self.amount_error(actions.last().min_amount_out)
        } else if actions.last().token_out@ != self.transfer_token@ {
            Some(ContractError::LastTokenNotTransfer)
        } else {
            None
        }
    }

    /// Why an inbound settlement is refused, if it is.
    pub open spec fn inbound_error(
        self,
        caller: Seq<char>,
        p: SwapFromParams,
        msg: Option<RefFinanceReceiverMessage>,
    ) -> Option<ContractError> {
        if !self.is_running {
            Some(ContractError::ContractPaused)
        } else if caller != self.relayer@ {
            Some(ContractError::OnlyRelayer)
        } else if !valid_account_id(p.new_address@) || !valid_account_id(p.token_out@) {
            Some(ContractError::InvalidAccountId)
        } else if self.amount_error(p.amount_in_with_fee) is Some {
            self.amount_error(p.amount_in_with_fee)
        } else if self.processed_tx.contains(p.original_tx_hash@) {
            Some(ContractError::SwapAlreadyProcessed)
        } else if router_message_error(msg) is Some {
            router_message_error(msg)
        } else if self.acc_token_fee + fee_of(
            p.amount_in_with_fee as int,
            self.fee_amount_of_blockchain as int,
        ) > u128::MAX {
            Some(ContractError::FeeOverflow)
        } else {
            None
        }
    }

    /// The state after an inbound settlement of `amount_with_fee` was accepted:
    /// its fee is added to the accumulated fee.
    pub open spec fn with_fee_collected(self, amount_with_fee: u128) -> ContractView {
        ContractView {
            acc_token_fee: (self.acc_token_fee + fee_of(
                amount_with_fee as int,
                self.fee_amount_of_blockchain as int,
            )) as u128,
            ..self
        }
    }

    /// The calls that an accepted inbound settlement issues. They move what is
    /// left of the deposit after the fee: straight to the receiver, or into the
    /// router with the router instruction, whose first leg then swaps exactly
    /// that amount, followed by a transfer of the swap's output to the receiver.
    /// The settlement's continuation comes last.
    pub open spec fn inbound_calls(
        self,
        p: SwapFromParams,
        msg: Option<RefFinanceReceiverMessage>,
        calls: Seq<CrossContractCall>,
    ) -> bool {
        let amount = amount_without_fee(
            p.amount_in_with_fee as int,
            self.fee_amount_of_blockchain as int,
        ) as u128;
        match msg {
            None => calls == seq![
                CrossContractCall::FtTransfer {
                    token: self.transfer_token,
                    receiver_id: p.new_address,
                    amount: amount,
                },
                CrossContractCall::AfterSwapFrom { original_tx_hash: p.original_tx_hash },
            ],
            Some(RefFinanceReceiverMessage::ExecuteSwap { referal_id, force, actions }) => {
                &&& calls.len() == 3
                &&& match calls[0] {
                    CrossContractCall::FtTransferCall {
                        token,
                        receiver_id,
                        amount: sent,
                        msg: Some(RefFinanceReceiverMessage::ExecuteSwap {
                            referal_id: referal_id2,
                            force: force2,
                            actions: actions2,
                        }),
                    } => {
                        &&& token == self.transfer_token
                        &&& receiver_id == self.blockchain_router
                        &&& sent == amount
                        &&& referal_id2 == referal_id
                        &&& force2 == force
                        &&& actions2@ == actions@.update(0, with_amount_in(actions@[0], amount))
                    },
                    _ => false,
                }
                &&& calls[1] == CrossContractCall::FtTransfer {
                    token: p.token_out,
                    receiver_id: p.new_address,
                    amount: p.amount_out_min,
                }
                &&& calls[2] == CrossContractCall::AfterSwapFrom {
                    original_tx_hash: p.original_tx_hash,
                }
            },
        }
    }

    /// The state after the continuation of an inbound settlement: the hash is
    /// recorded only when the settlement succeeded.
    pub open spec fn after_swap_from(self, results: Seq<PromiseOutcome>, hash: Seq<char>) -> ContractView {
        if single_result(results) == Ok::<bool, ContractError>(true) {
            ContractView { processed_tx: self.processed_tx.insert(hash), ..self }
        } else {
            self
        }
    }

    /// Why an outbound swap of `amount` of `token_in`, deposited by
    /// `sender_id`, is refused, if it is.
    pub open spec fn outbound_error(
        self,
        token_in: Seq<char>,
        sender_id: Seq<char>,
        amount: u128,
        msg: TokenReceiverMessage,
    ) -> Option<ContractError> {
        if !self.is_running {
            Some(ContractError::ContractPaused)
        } else if !valid_account_id(sender_id) {
            Some(ContractError::InvalidAccountId)
        } else {
            match msg {
                TokenReceiverMessage::SwapTokensToOther { swap_actions, swap_to_params } => {
                    if self.swap_actions_error(swap_actions@) is Some {
                        self.swap_actions_error(swap_actions@)
                    } else if self.swap_to_error(swap_to_params) is Some {
                        self.swap_to_error(swap_to_params)
                    } else if token_in == self.transfer_token@ {
                        Some(ContractError::TokenInIsTransferToken)
                    } else {
                        None
                    }
                },
                TokenReceiverMessage::SwapTransferTokensToOther { swap_to_params } => {
                    if self.swap_to_error(swap_to_params) is Some {
                        self.swap_to_error(swap_to_params)
                    } else if self.amount_error(amount) is Some {
                        self.amount_error(amount)
                    } else if token_in != self.transfer_token@ {
                        Some(ContractError::WrongTransferToken)
                    } else {
                        None
                    }
                },
            }
        }
    }

    /// The calls that swap a deposit in the router and hand the outcome to the
    /// outbound continuation.
    pub open spec fn swap_calls(
        self,
        sender_id: String,
        token_in: String,
        amount_in: u128,
        min_amount_out: u128,
        actions: Vec<SwapAction>,
    ) -> Seq<CrossContractCall> {
        seq![
            CrossContractCall::FtTransferCall {
                token: token_in,
                receiver_id: self.blockchain_router,
                amount: amount_in,
                msg: None,
            },
            CrossContractCall::RouterSwap { router: self.blockchain_router, actions: actions },
            CrossContractCall::AfterSwapTo {
                sender_id: sender_id,
                token_in: token_in,
                amount_in: amount_in,
                min_amount_out: min_amount_out,
            },
        ]
    }

    /// The calls that an accepted outbound deposit issues. A deposit of the
    /// transfer token is already on its way and issues none.
    pub open spec fn outbound_calls(
        self,
        token_in: String,
        sender_id: String,
        amount: u128,
        msg: TokenReceiverMessage,
    ) -> Seq<CrossContractCall> {
        match msg {
            TokenReceiverMessage::SwapTokensToOther { swap_actions, swap_to_params } => self.swap_calls(
                sender_id,
                token_in,
                amount,
                swap_actions@.last().min_amount_out,
                swap_actions,
            ),
            TokenReceiverMessage::SwapTransferTokensToOther { swap_to_params } => seq![],
        }
    }

    /// The calls that the outbound continuation issues: on success the
    /// transfer token goes out of the router toward the other chain; on failure
    /// the deposit goes back to its sender.
    pub open spec fn after_swap_to(
        self,
        results: Seq<PromiseOutcome>,
        sender_id: String,
        token_in: String,
        amount_in: u128,
        min_amount_out: u128,
    ) -> Result<Seq<CrossContractCall>, ContractError> {
        match single_result(results) {
            Err(e) => Err(e),
            Ok(false) => if valid_account_id(token_in@) {
                Ok(refund_calls(self.blockchain_router, sender_id, token_in, amount_in))
            } else {
                Err(ContractError::InvalidAccountId)
            },
            Ok(true) => Ok(
                seq![
                    CrossContractCall::RouterWithdraw {
                        router: self.blockchain_router,
                        token_id: self.transfer_token,
                        amount: min_amount_out,
                    },
                ],
            ),
        }
    }
}

/// The state of the contract.
pub struct Contract {
    pub(crate) owner: String,
    pub(crate) manager: String,
    pub(crate) relayer: String,
    pub(crate) transfer_token: String,
    pub(crate) blockchain_router: String,
    pub(crate) num_of_this_blockchain: u64,
    pub(crate) min_token_amount: u128,
    pub(crate) max_token_amount: u128,
    pub(crate) acc_token_fee: u128,
    pub(crate) fee_amount_of_blockchain: u128,
    pub(crate) rubic_addresses: HashMap<u64, String>,
    pub(crate) fee_amounts: HashMap<u64, u128>,
    pub(crate) existing_other_blockchain: HashSet<u64>,
    pub(crate) processed_tx: ProcessedTransactions,
    pub(crate) is_running: bool,
}

impl View for Contract {
    type V = ContractView;

    open(crate) spec fn view(&self) -> ContractView {
        ContractView {
            owner: self.owner,
            manager: self.manager,
            relayer: self.relayer,
            transfer_token: self.transfer_token,
            blockchain_router: self.blockchain_router,
            num_of_this_blockchain: self.num_of_this_blockchain,
            min_token_amount: self.min_token_amount,
            max_token_amount: self.max_token_amount,
            acc_token_fee: self.acc_token_fee,
            fee_amount_of_blockchain: self.fee_amount_of_blockchain,
            rubic_addresses: self.rubic_addresses@,
            fee_amounts: self.fee_amounts@,
            existing_other_blockchain: self.existing_other_blockchain@,
            processed_tx: self.processed_tx@,
            is_running: self.is_running,
        }
    }
}

impl Contract {
    /// A contract with no target chain, no processed settlement and no fee
    /// collected yet. The five accounts must be well-formed account ids and the
    /// fee rate below one million parts per million.
    pub fn new(
        owner_id: String,
        manager_id: String,
        relayer_id: String,
        transfer_token: String,
        blockchain_router: String,
        num_of_this_blockchain: u64,
        min_token_amount: u128,
        max_token_amount: u128,
        fee_amount_of_blockchain: u128,
        is_running: bool,
    ) -> (r: Result<Contract, ContractError>)
        ensures
            !(valid_account_id(owner_id@) && valid_account_id(manager_id@) && valid_account_id(
                relayer_id@,
            ) && valid_account_id(transfer_token@) && valid_account_id(blockchain_router@))
                ==> r == Err::<Contract, ContractError>(ContractError::InvalidAccountId),
            (valid_account_id(owner_id@) && valid_account_id(manager_id@) && valid_account_id(
                relayer_id@,
            ) && valid_account_id(transfer_token@) && valid_account_id(blockchain_router@)
                && fee_amount_of_blockchain >= 1_000_000) ==> r == Err::<Contract, ContractError>(
                ContractError::InvalidFeeRate,
            ),
            (valid_account_id(owner_id@) && valid_account_id(manager_id@) && valid_account_id(
                relayer_id@,
            ) && valid_account_id(transfer_token@) && valid_account_id(blockchain_router@)
                && fee_amount_of_blockchain < 1_000_000) ==> r is Ok,
            r matches Ok(c) ==> {
                &&& c@.wf()
                &&& c@ == (ContractView {
                    owner: owner_id,
                    manager: manager_id,
                    relayer: relayer_id,
                    transfer_token: transfer_token,
                    blockchain_router: blockchain_router,
                    num_of_this_blockchain: num_of_this_blockchain,
                    min_token_amount: min_token_amount,
                    max_token_amount: max_token_amount,
                    acc_token_fee: 0,
                    fee_amount_of_blockchain: fee_amount_of_blockchain,
                    rubic_addresses: Map::empty(),
                    fee_amounts: Map::empty(),
                    existing_other_blockchain: Set::empty(),
                    processed_tx: Set::empty(),
                    is_running: is_running,
                })
            },
    {
        if !(is_valid_account_id(&owner_id) && is_valid_account_id(&manager_id)
            && is_valid_account_id(&relayer_id) && is_valid_account_id(&transfer_token)
            && is_valid_account_id(&blockchain_router)) {
            return Err(ContractError::InvalidAccountId);
        }
        if fee_amount_of_blockchain >= FEE_DENOMINATOR {
            return Err(ContractError::InvalidFeeRate);
        }
        Ok(
            Contract {
                owner: owner_id,
                manager: manager_id,
                relayer: relayer_id,
                transfer_token,
                blockchain_router,
                num_of_this_blockchain,
                min_token_amount,
                max_token_amount,
                acc_token_fee: 0,
                fee_amount_of_blockchain,
                rubic_addresses: HashMap::new(),
                fee_amounts: HashMap::new(),
                existing_other_blockchain: HashSet::new(),
                processed_tx: ProcessedTransactions::new(),
                is_running,
            },
        )
    }

    pub(crate) fn assert_contract_running(&self) -> (r: Result<(), ContractError>)
        ensures
            r == (if self@.is_running {
                Ok(())
            } else {
                Err(ContractError::ContractPaused)
            }),
    {
        if self.is_running {
            Ok(())
        } else {
            Err(ContractError::ContractPaused)
        }
    }

    pub(crate) fn assert_relayer(&self, caller: &String) -> (r: Result<(), ContractError>)
        ensures
            r == (if caller@ == self@.relayer@ {
                Ok(())
            } else {
                Err(ContractError::OnlyRelayer)
            }),
    {
        if *caller == self.relayer {
            Ok(())
        } else {
            Err(ContractError::OnlyRelayer)
        }
    }

    pub(crate) fn assert_owner(&self, caller: &String) -> (r: Result<(), ContractError>)
        ensures
            r == (if caller@ == self@.owner@ {
                Ok(())
            } else {
                Err(ContractError::OnlyOwner)
            }),
    {
        if *caller == self.owner {
            Ok(())
        } else {
            Err(ContractError::OnlyOwner)
        }
    }

    pub(crate) fn assert_owner_or_manager(&self, caller: &String) -> (r: Result<(), ContractError>)
        ensures
            r == (if caller@ == self@.owner@ || caller@ == self@.manager@ {
                Ok(())
            } else {
                Err(ContractError::OnlyOwnerOrManager)
            }),
    {
        if *caller == self.owner || *caller == self.manager {
            Ok(())
        } else {
            Err(ContractError::OnlyOwnerOrManager)
        }
    }
}

} // verus!
