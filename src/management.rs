use vstd::prelude::*;
use crate::account::is_valid_account_id;
use crate::calls::CrossContractCall;
use crate::contract::{result_of, Contract, ContractView};
use crate::errors::ContractError;
use crate::fee::FEE_DENOMINATOR;

verus! {

broadcast use vstd::std_specs::hash::group_hash_axioms;

impl Contract {
    /// Hands ownership to `owner_id`. Owner only.
    pub fn set_owner(&mut self, caller: &String, owner_id: String) -> (r: Result<(), ContractError>)
        requires
            old(self)@.wf(),
        ensures
            final(self)@.wf(),
            r == result_of(old(self)@.account_update_error(caller@, owner_id@)),
            final(self)@ == (if r is Ok {
                ContractView { owner: owner_id, ..old(self)@ }
            } else {
                old(self)@
            }),
    {
        self.assert_owner(caller)?;
        if !is_valid_account_id(&owner_id) {
            return Err(ContractError::InvalidAccountId);
        }
        self.owner = owner_id;
        assert(self@.fee_amounts == old(self)@.fee_amounts);
        Ok(())
    }

    /// Replaces the manager. Owner only.
    pub fn set_manager(&mut self, caller: &String, manager_id: String) -> (r: Result<
        (),
        ContractError,
    >)
        requires
            old(self)@.wf(),
        ensures
            final(self)@.wf(),
            r == result_of(old(self)@.account_update_error(caller@, manager_id@)),
            final(self)@ == (if r is Ok {
                ContractView { manager: manager_id, ..old(self)@ }
            } else {
                old(self)@
            }),
    {
        self.assert_owner(caller)?;
        if !is_valid_account_id(&manager_id) {
            return Err(ContractError::InvalidAccountId);
        }
        self.manager = manager_id;
        assert(self@.fee_amounts == old(self)@.fee_amounts);
        Ok(())
    }

    /// Replaces the relayer. Owner only.
    pub fn set_relayer(&mut self, caller: &String, relayer_id: String) -> (r: Result<
        (),
        ContractError,
    >)
        requires
            old(self)@.wf(),
        ensures
            final(self)@.wf(),
            r == result_of(old(self)@.account_update_error(caller@, relayer_id@)),
            final(self)@ == (if r is Ok {
                ContractView { relayer: relayer_id, ..old(self)@ }
            } else {
                old(self)@
            }),
    {
        self.assert_owner(caller)?;
        if !is_valid_account_id(&relayer_id) {
            return Err(ContractError::InvalidAccountId);
        }
        self.relayer = relayer_id;
        assert(self@.fee_amounts == old(self)@.fee_amounts);
        Ok(())
    }

    /// Replaces the transfer token. Owner only.
    pub fn set_transfer_token(&mut self, caller: &String, transfer_token: String) -> (r: Result<
        (),
        ContractError,
    >)
        requires
            old(self)@.wf(),
        ensures
            final(self)@.wf(),
            r == result_of(old(self)@.account_update_error(caller@, transfer_token@)),
            final(self)@ == (if r is Ok {
                ContractView { transfer_token: transfer_token, ..old(self)@ }
            } else {
                old(self)@
            }),
    {
        self.assert_owner(caller)?;
        if !is_valid_account_id(&transfer_token) {
            return Err(ContractError::InvalidAccountId);
        }
        self.transfer_token = transfer_token;
        assert(self@.fee_amounts == old(self)@.fee_amounts);
        Ok(())
    }

    /// Replaces the router. Owner only.
    pub fn set_blockchain_router(&mut self, caller: &String, blockchain_router: String) -> (r:
        Result<(), ContractError>)
        requires
            old(self)@.wf(),
        ensures
            final(self)@.wf(),
            r == result_of(old(self)@.account_update_error(caller@, blockchain_router@)),
            final(self)@ == (if r is Ok {
                ContractView { blockchain_router: blockchain_router, ..old(self)@ }
            } else {
                old(self)@
            }),
    {
        self.assert_owner(caller)?;
        if !is_valid_account_id(&blockchain_router) {
            return Err(ContractError::InvalidAccountId);
        }
        self.blockchain_router = blockchain_router;
        assert(self@.fee_amounts == old(self)@.fee_amounts);
        Ok(())
    }

    /// Replaces this chain's id. Owner only.
    pub fn set_num_of_this_blockchain(&mut self, caller: &String, num_of_this_blockchain: u64) -> (r:
        Result<(), ContractError>)
        requires
            old(self)@.wf(),
        ensures
            final(self)@.wf(),
            r == result_of(old(self)@.owner_error(caller@)),
            final(self)@ == (if r is Ok {
                ContractView { num_of_this_blockchain: num_of_this_blockchain, ..old(self)@ }
            } else {
                old(self)@
            }),
    {
        self.assert_owner(caller)?;
        self.num_of_this_blockchain = num_of_this_blockchain;
        assert(self@.fee_amounts == old(self)@.fee_amounts);
        Ok(())
    }

    /// Replaces the least transferable amount. Owner or manager only.
    pub fn set_min_token_amount(&mut self, caller: &String, min_token_amount: u128) -> (r: Result<
        (),
        ContractError,
    >)
        requires
            old(self)@.wf(),
        ensures
            final(self)@.wf(),
            r == result_of(old(self)@.owner_or_manager_error(caller@)),
            final(self)@ == (if r is Ok {
                ContractView { min_token_amount: min_token_amount, ..old(self)@ }
            } else {
                old(self)@
            }),
    {
        self.assert_owner_or_manager(caller)?;
        self.min_token_amount = min_token_amount;
        assert(self@.fee_amounts == old(self)@.fee_amounts);
        Ok(())
    }

    /// Replaces the largest transferable amount. Owner or manager only.
    pub fn set_max_token_amount(&mut self, caller: &String, max_token_amount: u128) -> (r: Result<
        (),
        ContractError,
    >)
        requires
            old(self)@.wf(),
        ensures
            final(self)@.wf(),
            r == result_of(old(self)@.owner_or_manager_error(caller@)),
            final(self)@ == (if r is Ok {
                ContractView { max_token_amount: max_token_amount, ..old(self)@ }
            } else {
                old(self)@
            }),
    {
        self.assert_owner_or_manager(caller)?;
        self.max_token_amount = max_token_amount;
        assert(self@.fee_amounts == old(self)@.fee_amounts);
        Ok(())
    }

    /// Pauses or resumes the contract. Owner or manager only.
    pub fn set_is_running(&mut self, caller: &String, is_running: bool) -> (r: Result<
        (),
        ContractError,
    >)
        requires
            old(self)@.wf(),
        ensures
            final(self)@.wf(),
            r == result_of(old(self)@.owner_or_manager_error(caller@)),
            final(self)@ == (if r is Ok {
                ContractView { is_running: is_running, ..old(self)@ }
            } else {
                old(self)@
            }),
    {
        self.assert_owner_or_manager(caller)?;
        self.is_running = is_running;
        assert(self@.fee_amounts == old(self)@.fee_amounts);
        Ok(())
    }

    /// Enables `blockchain_num` as a target chain. Owner only; this chain's own
    /// id and a chain already enabled are refused.
    pub fn add_other_blockchain(&mut self, caller: &String, blockchain_num: u64) -> (r: Result<
        (),
        ContractError,
    >)
        requires
            old(self)@.wf(),
        ensures
            final(self)@.wf(),
            r == result_of(
                if old(self)@.owner_error(caller@) is Some {
                    old(self)@.owner_error(caller@)
                } else if blockchain_num == old(self)@.num_of_this_blockchain {
                    Some(ContractError::CannotAddThisBlockchain)
                } else if old(self)@.existing_other_blockchain.contains(blockchain_num) {
                    Some(ContractError::BlockchainAlreadyAdded)
                } else {
                    None
                },
            ),
            final(self)@ == (if r is Ok {
                ContractView {
                    existing_other_blockchain: old(self)@.existing_other_blockchain.insert(
                        blockchain_num,
                    ),
                    ..old(self)@
                }
            } else {
                old(self)@
            }),
    {
        self.assert_owner(caller)?;
        if blockchain_num == self.num_of_this_blockchain {
            return Err(ContractError::CannotAddThisBlockchain);
        }
        if self.existing_other_blockchain.contains(&blockchain_num) {
            return Err(ContractError::BlockchainAlreadyAdded);
        }
        self.existing_other_blockchain.insert(blockchain_num);
        assert(self@.fee_amounts == old(self)@.fee_amounts);
        Ok(())
    }

    /// Disables `blockchain_num` as a target chain. Owner only; a chain that is
    /// not enabled is refused.
    pub fn remove_other_blockchain(&mut self, caller: &String, blockchain_num: u64) -> (r: Result<
        (),
        ContractError,
    >)
        requires
            old(self)@.wf(),
        ensures
            final(self)@.wf(),
            r == result_of(
                if old(self)@.owner_error(caller@) is Some {
                    old(self)@.owner_error(caller@)
                } else if !old(self)@.existing_other_blockchain.contains(blockchain_num) {
                    Some(ContractError::BlockchainNotAdded)
                } else {
                    None
                },
            ),
            final(self)@ == (if r is Ok {
                ContractView {
                    existing_other_blockchain: old(self)@.existing_other_blockchain.remove(
                        blockchain_num,
                    ),
                    ..old(self)@
                }
            } else {
                old(self)@
            }),
    {
        self.assert_owner(caller)?;
        if !self.existing_other_blockchain.contains(&blockchain_num) {
            return Err(ContractError::BlockchainNotAdded);
        }
        self.existing_other_blockchain.remove(&blockchain_num);
        assert(self@.existing_other_blockchain =~= old(self)@.existing_other_blockchain.remove(
            blockchain_num,
        ));
        assert(self@.fee_amounts == old(self)@.fee_amounts);
        Ok(())
    }

    /// The transfer that pays the accumulated fee to the owner. Owner only.
    pub fn collect_token_fee(&self, caller: &String) -> (r: Result<CrossContractCall, ContractError>)
        ensures
            match self@.owner_error(caller@) {
                Some(e) => r == Err::<CrossContractCall, ContractError>(e),
                None => r == Ok::<CrossContractCall, ContractError>(
                    CrossContractCall::FtTransfer {
                        token: self@.transfer_token,
                        receiver_id: *caller,
                        amount: self@.acc_token_fee,
                    },
                ),
            },
    {
        self.assert_owner(caller)?;
        Ok(
            CrossContractCall::FtTransfer {
                token: self.transfer_token.clone(),
                receiver_id: caller.clone(),
                amount: self.acc_token_fee,
            },
        )
    }

    /// The transfer that moves `amount` of the transfer token held by this
    /// contract to the owner. Owner only.
    pub fn pool_balancing(&self, caller: &String, amount: u128) -> (r: Result<
        CrossContractCall,
        ContractError,
    >)
        ensures
            match self@.owner_error(caller@) {
                Some(e) => r == Err::<CrossContractCall, ContractError>(e),
                None => r == Ok::<CrossContractCall, ContractError>(
                    CrossContractCall::FtTransfer {
                        token: self@.transfer_token,
                        receiver_id: *caller,
                        amount: amount,
                    },
                ),
            },
    {
        self.assert_owner(caller)?;
        Ok(
            CrossContractCall::FtTransfer {
                token: self.transfer_token.clone(),
                receiver_id: caller.clone(),
                amount,
            },
        )
    }

    /// Registers the relay address of `blockchain_num`. Owner or manager only.
    pub fn set_rubic_address_of_blockchain(
        &mut self,
        caller: &String,
        blockchain_num: u64,
        rubic_address: String,
    ) -> (r: Result<(), ContractError>)
        requires
            old(self)@.wf(),
        ensures
            final(self)@.wf(),
            r == result_of(old(self)@.owner_or_manager_error(caller@)),
            final(self)@ == (if r is Ok {
                ContractView {
                    rubic_addresses: old(self)@.rubic_addresses.insert(blockchain_num, rubic_address),
                    ..old(self)@
                }
            } else {
                old(self)@
            }),
    {
        self.assert_owner_or_manager(caller)?;
        self.rubic_addresses.insert(blockchain_num, rubic_address);
        assert(self@.fee_amounts == old(self)@.fee_amounts);
        Ok(())
    }

    /// Registers the fee rate of `blockchain_num`, in parts per million. Owner
    /// or manager only; a rate of one million or more is refused.
    pub fn set_fee_amount_of_blockchain(
        &mut self,
        caller: &String,
        blockchain_num: u64,
        fee_amount: u128,
    ) -> (r: Result<(), ContractError>)
        requires
            old(self)@.wf(),
        ensures
            final(self)@.wf(),
            r == result_of(
                if old(self)@.owner_or_manager_error(caller@) is Some {
                    old(self)@.owner_or_manager_error(caller@)
                } else if fee_amount >= 1_000_000 {
                    Some(ContractError::InvalidFeeRate)
                } else {
                    None
                },
            ),
            final(self)@ == (if r is Ok {
                ContractView {
                    fee_amounts: old(self)@.fee_amounts.insert(blockchain_num, fee_amount),
                    ..old(self)@
                }
            } else {
                old(self)@
            }),
    {
        self.assert_owner_or_manager(caller)?;
        if fee_amount >= FEE_DENOMINATOR {
            return Err(ContractError::InvalidFeeRate);
        }
        self.fee_amounts.insert(blockchain_num, fee_amount);
        Ok(())
    }
}

} // verus!
