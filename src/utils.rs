use vstd::prelude::*;
use crate::contract::{result_of, Contract};
use crate::errors::ContractError;
use crate::interfaces::{SwapAction, SwapFromParams, SwapToParams};

verus! {

broadcast use vstd::std_specs::hash::group_hash_axioms;

impl Contract {
    /// Accepts a target with a receiver, a non-empty path, an enabled chain other
    /// than this one, and a path that starts with that chain's relay address.
    pub fn validate_swap_to(&self, swap_to: &SwapToParams) -> (r: Result<(), ContractError>)
        ensures
            r == result_of(self@.swap_to_error(*swap_to)),
    {
        if swap_to.new_address.as_str().is_empty() {
            return Err(ContractError::EmptyNewAddress);
        }
        if swap_to.second_path.len() == 0 {
            return Err(ContractError::EmptySecondPath);
        }
        if !(self.existing_other_blockchain.contains(&swap_to.blockchain) && swap_to.blockchain
            != self.num_of_this_blockchain) {
            return Err(ContractError::WrongBlockchain);
        }
        match self.rubic_addresses.get(&swap_to.blockchain) {
            None => Err(ContractError::WrongBlockchainNumber),
            Some(rubic_address) => {
                if swap_to.second_path[0] == *rubic_address {
                    Ok(())
                } else {
                    Err(ContractError::FirstAddressNotRubic)
                }
            },
        }
    }

    /// Accepts an amount within the inclusive bounds.
    pub fn validate_amount_in(&self, amount_in: u128) -> (r: Result<(), ContractError>)
        ensures
            r == result_of(self@.amount_error(amount_in)),
    {
        if amount_in < self.min_token_amount {
            return Err(ContractError::NotEnoughTokens);
        }
        if amount_in > self.max_token_amount {
            return Err(ContractError::TooMuchTokens);
        }
        Ok(())
    }

    /// Accepts only the transfer token.
    pub fn validate_token_in_is_transfer(&self, token_in: &String) -> (r: Result<(), ContractError>)
        ensures
            r == (if token_in@ == self@.transfer_token@ {
                Ok(())
            } else {
                Err(ContractError::WrongTransferToken)
            }),
    {
        if *token_in == self.transfer_token {
            Ok(())
        } else {
            Err(ContractError::WrongTransferToken)
        }
    }

    /// Accepts any token but the transfer token.
    pub fn validate_token_in_is_not_transfer(&self, token_in: &String) -> (r: Result<
        (),
        ContractError,
    >)
        ensures
            r == (if token_in@ != self@.transfer_token@ {
                Ok(())
            } else {
                Err(ContractError::TokenInIsTransferToken)
            }),
    {
        if *token_in != self.transfer_token {
            Ok(())
        } else {
            Err(ContractError::TokenInIsTransferToken)
        }
    }

    /// Accepts swap legs that are not empty and whose last leg ends in the
    /// transfer token with a minimum output within the bounds.
    pub fn validate_swap_actions(&self, swap_actions: &Vec<SwapAction>) -> (r: Result<
        (),
        ContractError,
    >)
        ensures
            r == result_of(self@.swap_actions_error(swap_actions@)),
    {
        if swap_actions.len() == 0 {
            return Err(ContractError::EmptySwapActions);
        }
        let last = &swap_actions[swap_actions.len() - 1];
        self.validate_amount_in(last.min_amount_out)?;
        if last.token_out != self.transfer_token {
            return Err(ContractError::LastTokenNotTransfer);
        }
        Ok(())
    }

    /// Accepts a settlement whose amount is within the bounds.
    pub fn validate_swap_from(&self, swap_from: &SwapFromParams) -> (r: Result<(), ContractError>)
        ensures
            r == result_of(self@.amount_error(swap_from.amount_in_with_fee)),
    {
        self.validate_amount_in(swap_from.amount_in_with_fee)
    }
}

} // verus!
