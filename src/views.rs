use vstd::prelude::*;
use crate::contract::Contract;
use crate::errors::ContractError;

verus! {

broadcast use vstd::std_specs::hash::group_hash_axioms;

impl Contract {
    pub fn get_version(&self) -> (r: u64)
        ensures
            r == 1,
    {
        1
    }

    pub fn get_owner(&self) -> (r: String)
        ensures
            r == self@.owner,
    {
        self.owner.clone()
    }

    pub fn get_manager(&self) -> (r: String)
        ensures
            r == self@.manager,
    {
        self.manager.clone()
    }

    pub fn get_relayer(&self) -> (r: String)
        ensures
            r == self@.relayer,
    {
        self.relayer.clone()
    }

    pub fn get_transfer_token(&self) -> (r: String)
        ensures
            r == self@.transfer_token,
    {
        self.transfer_token.clone()
    }

    pub fn get_blockchain_router(&self) -> (r: String)
        ensures
            r == self@.blockchain_router,
    {
        self.blockchain_router.clone()
    }

    pub fn get_num_of_this_blockchain(&self) -> (r: u64)
        ensures
            r == self@.num_of_this_blockchain,
    {
        self.num_of_this_blockchain
    }

    pub fn get_min_token_amount(&self) -> (r: u128)
        ensures
            r == self@.min_token_amount,
    {
        self.min_token_amount
    }

    pub fn get_max_token_amount(&self) -> (r: u128)
        ensures
            r == self@.max_token_amount,
    {
        self.max_token_amount
    }

    pub fn get_acc_token_fee(&self) -> (r: u128)
        ensures
            r == self@.acc_token_fee,
    {
        self.acc_token_fee
    }

    /// The fee rate of inbound settlements, in parts per million.
    pub fn get_fee_amount_of_blockchain(&self) -> (r: u128)
        ensures
            r == self@.fee_amount_of_blockchain,
    {
        self.fee_amount_of_blockchain
    }

    /// The fee rate registered for `blockchain_num`, if any.
    pub fn get_fee_amount_of(&self, blockchain_num: u64) -> (r: Option<u128>)
        ensures
            r == (if self@.fee_amounts.contains_key(blockchain_num) {
                Some(self@.fee_amounts[blockchain_num])
            } else {
                None
            }),
    {
        match self.fee_amounts.get(&blockchain_num) {
            Some(fee) => Some(*fee),
            None => None,
        }
    }

    /// The relay address registered for `blockchain_num`.
    pub fn get_rubic_address(&self, blockchain_num: u64) -> (r: Result<String, ContractError>)
        ensures
            r == (if self@.rubic_addresses.contains_key(blockchain_num) {
                Ok::<String, ContractError>(self@.rubic_addresses[blockchain_num])
            } else {
                Err(ContractError::WrongBlockchainNumber)
            }),
    {
        match self.rubic_addresses.get(&blockchain_num) {
            Some(address) => Ok(address.clone()),
            None => Err(ContractError::WrongBlockchainNumber),
        }
    }

    pub fn existing_other_blockchain(&self, blockchain_num: u64) -> (r: bool)
        ensures
            r == self@.existing_other_blockchain.contains(blockchain_num),
    {
        self.existing_other_blockchain.contains(&blockchain_num)
    }

    pub fn is_processed_tx(&self, original_tx_hash: &String) -> (r: bool)
        ensures
            r == self@.processed_tx.contains(original_tx_hash@),
    {
        self.processed_tx.contains(original_tx_hash)
    }

    pub fn is_running(&self) -> (r: bool)
        ensures
            r == self@.is_running,
    {
        self.is_running
    }
}

} // verus!
