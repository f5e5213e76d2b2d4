use vstd::prelude::*;
use std::collections::{HashMap, HashSet};
use crate::account::{is_valid_account_id, valid_account_id};
use crate::contract::Contract;
use crate::errors::ContractError;
use crate::fee::FEE_DENOMINATOR;
use crate::processed::{hash_views, ProcessedTransactions};
use vstd::std_specs::iter::IteratorSpec;

verus! {

broadcast use vstd::std_specs::hash::group_hash_axioms;

/// The contract's state in plain values, as a host keeps it between calls. The
/// registries are lists of entries, in no particular order.
#[derive(Clone, Debug, PartialEq, Eq)]
pub struct ContractState {
    pub owner: String,
    pub manager: String,
    pub relayer: String,
    pub transfer_token: String,
    pub blockchain_router: String,
    pub num_of_this_blockchain: u64,
    pub min_token_amount: u128,
    pub max_token_amount: u128,
    pub acc_token_fee: u128,
    pub fee_amount_of_blockchain: u128,
    pub rubic_addresses: Vec<(u64, String)>,
    pub fee_amounts: Vec<(u64, u128)>,
    pub existing_other_blockchain: Vec<u64>,
    pub processed_tx: Vec<String>,
    pub is_running: bool,
}

/// No two entries have the same key.
pub open spec fn keys_unique<V>(entries: Seq<(u64, V)>) -> bool {
    forall|i: int, j: int|
        0 <= i < entries.len() && 0 <= j < entries.len() && #[trigger] entries[i].0
            == #[trigger] entries[j].0 ==> i == j
}

/// The map that the entries make when entered in order: a later entry replaces
/// an earlier one with the same key.
pub open spec fn entries_map<V>(entries: Seq<(u64, V)>) -> Map<u64, V> {
    entries.fold_left(Map::empty(), |m: Map<u64, V>, e: (u64, V)| m.insert(e.0, e.1))
}

/// Why a stored state cannot be restored, if it cannot.
pub open spec fn state_error(s: ContractState) -> Option<ContractError> {
    if !(valid_account_id(s.owner@) && valid_account_id(s.manager@) && valid_account_id(
        s.relayer@,
    ) && valid_account_id(s.transfer_token@) && valid_account_id(s.blockchain_router@)) {
        Some(ContractError::InvalidAccountId)
    } else if s.fee_amount_of_blockchain >= 1_000_000 || exists|i: int|
        0 <= i < s.fee_amounts@.len() && #[trigger] s.fee_amounts@[i].1 >= 1_000_000 {
        Some(ContractError::InvalidFeeRate)
    } else {
        None
    }
}

fn address_entries(m: &HashMap<u64, String>) -> (r: Vec<(u64, String)>)
    ensures
        r@.to_set() == m@.kv_pairs(),
        keys_unique(r@),
{
    let entries = m.iter();
    let ghost all = entries.remaining();
    let mut r: Vec<(u64, String)> = Vec::new();
    for entry in it: entries
        invariant
            it.seq() == all,
            r@.len() == it.index(),
            forall|i: int| 0 <= i < it.index() ==> #[trigger] r@[i] == (*all[i].0, *all[i].1),
    {
        r.push((*entry.0, entry.1.clone()));
    }
    assert(r@ =~= all.unref());
    assert forall|i: int, j: int|
        0 <= i < r@.len() && 0 <= j < r@.len() && #[trigger] r@[i].0 == #[trigger] r@[j].0 implies i
        == j by {
        assert(m@.contains_key(*all[i].0));
        assert(m@.contains_key(*all[j].0));
        assert(all[i] == all[j]);
    }
    r
}

fn fee_entries(m: &HashMap<u64, u128>) -> (r: Vec<(u64, u128)>)
    ensures
        r@.to_set() == m@.kv_pairs(),
        keys_unique(r@),
{
    let entries = m.iter();
    let ghost all = entries.remaining();
    let mut r: Vec<(u64, u128)> = Vec::new();
    for entry in it: entries
        invariant
            it.seq() == all,
            r@.len() == it.index(),
            forall|i: int| 0 <= i < it.index() ==> #[trigger] r@[i] == (*all[i].0, *all[i].1),
    {
        r.push((*entry.0, *entry.1));
    }
    assert(r@ =~= all.unref());
    assert forall|i: int, j: int|
        0 <= i < r@.len() && 0 <= j < r@.len() && #[trigger] r@[i].0 == #[trigger] r@[j].0 implies i
        == j by {
        assert(m@.contains_key(*all[i].0));
        assert(m@.contains_key(*all[j].0));
        assert(all[i] == all[j]);
    }
    r
}

fn chain_entries(s: &HashSet<u64>) -> (r: Vec<u64>)
    ensures
        r@.to_set() == s@,
        r@.no_duplicates(),
{
    let entries = s.iter();
    let ghost all = entries.remaining();
    let mut r: Vec<u64> = Vec::new();
    for entry in it: entries
        invariant
            it.seq() == all,
            r@.len() == it.index(),
            forall|i: int| 0 <= i < it.index() ==> #[trigger] r@[i] == *all[i],
    {
        r.push(*entry);
    }
    assert(r@ =~= all.unref());
    r
}

fn address_map(entries: &Vec<(u64, String)>) -> (r: HashMap<u64, String>)
    ensures
        r@ == entries_map(entries@),
{
    let mut r: HashMap<u64, String> = HashMap::new();
    let mut i: usize = 0;
    while i < entries.len()
        invariant
            i <= entries@.len(),
            r@ == entries_map(entries@.take(i as int)),
        decreases entries@.len() - i,
    {
        let ghost before = entries@.take(i as int);
        r.insert(entries[i].0, entries[i].1.clone());
        i += 1;
        assert(entries@.take(i as int).drop_last() =~= before);
    }
    assert(entries@.take(i as int) =~= entries@);
    r
}

fn fee_map(entries: &Vec<(u64, u128)>) -> (r: HashMap<u64, u128>)
    ensures
        r@ == entries_map(entries@),
{
    let mut r: HashMap<u64, u128> = HashMap::new();
    let mut i: usize = 0;
    while i < entries.len()
        invariant
            i <= entries@.len(),
            r@ == entries_map(entries@.take(i as int)),
        decreases entries@.len() - i,
    {
        let ghost before = entries@.take(i as int);
        r.insert(entries[i].0, entries[i].1);
        i += 1;
        assert(entries@.take(i as int).drop_last() =~= before);
    }
    assert(entries@.take(i as int) =~= entries@);
    r
}

fn chain_set(entries: &Vec<u64>) -> (r: HashSet<u64>)
    ensures
        r@ == entries@.to_set(),
{
    let mut r: HashSet<u64> = HashSet::new();
    let mut i: usize = 0;
    while i < entries.len()
        invariant
            i <= entries@.len(),
            r@ == entries@.take(i as int).to_set(),
        decreases entries@.len() - i,
    {
        let ghost before = entries@.take(i as int);
        r.insert(entries[i]);
        i += 1;
        assert(entries@.take(i as int) =~= before.push(entries@[i - 1]));
        proof {
            before.lemma_push_to_set_commute(entries@[i - 1]);
        }
    }
    assert(entries@.take(i as int) =~= entries@);
    r
}

/// Whether every entry's fee rate is below one million parts per million.
fn fee_rates_valid(entries: &Vec<(u64, u128)>) -> (r: bool)
    ensures
        r == forall|i: int| 0 <= i < entries@.len() ==> #[trigger] entries@[i].1 < 1_000_000,
{
    let mut i: usize = 0;
    while i < entries.len()
        invariant
            i <= entries@.len(),
            forall|j: int| 0 <= j < i ==> #[trigger] entries@[j].1 < 1_000_000,
        decreases entries@.len() - i,
    {
        if entries[i].1 >= FEE_DENOMINATOR {
            return false;
        }
        i += 1;
    }
    true
}

impl Contract {
    /// The state in plain values: each registry entry and each processed hash
    /// exactly once.
    pub fn to_state(&self) -> (r: ContractState)
        ensures
            r.owner == self@.owner,
            r.manager == self@.manager,
            r.relayer == self@.relayer,
            r.transfer_token == self@.transfer_token,
            r.blockchain_router == self@.blockchain_router,
            r.num_of_this_blockchain == self@.num_of_this_blockchain,
            r.min_token_amount == self@.min_token_amount,
            r.max_token_amount == self@.max_token_amount,
            r.acc_token_fee == self@.acc_token_fee,
            r.fee_amount_of_blockchain == self@.fee_amount_of_blockchain,
            r.rubic_addresses@.to_set() == self@.rubic_addresses.kv_pairs(),
            keys_unique(r.rubic_addresses@),
            r.fee_amounts@.to_set() == self@.fee_amounts.kv_pairs(),
            keys_unique(r.fee_amounts@),
            r.existing_other_blockchain@.to_set() == self@.existing_other_blockchain,
            r.existing_other_blockchain@.no_duplicates(),
            hash_views(r.processed_tx@).to_set() == self@.processed_tx,
            r.is_running == self@.is_running,
    {
        ContractState {
            owner: self.owner.clone(),
            manager: self.manager.clone(),
            relayer: self.relayer.clone(),
            transfer_token: self.transfer_token.clone(),
            blockchain_router: self.blockchain_router.clone(),
            num_of_this_blockchain: self.num_of_this_blockchain,
            min_token_amount: self.min_token_amount,
            max_token_amount: self.max_token_amount,
            acc_token_fee: self.acc_token_fee,
            fee_amount_of_blockchain: self.fee_amount_of_blockchain,
            rubic_addresses: address_entries(&self.rubic_addresses),
            fee_amounts: fee_entries(&self.fee_amounts),
            existing_other_blockchain: chain_entries(&self.existing_other_blockchain),
            processed_tx: self.processed_tx.hashes(),
            is_running: self.is_running,
        }
    }

    /// The contract that a stored state describes. The configured accounts must
    /// be well-formed account ids and every fee rate below one million parts
    /// per million.
    pub fn from_state(state: ContractState) -> (r: Result<Contract, ContractError>)
        ensures
            match state_error(state) {
                Some(e) => r == Err::<Contract, ContractError>(e),
                None => r matches Ok(c) && {
                    &&& c@.wf()
                    &&& c@.owner == state.owner
                    &&& c@.manager == state.manager
                    &&& c@.relayer == state.relayer
                    &&& c@.transfer_token == state.transfer_token
                    &&& c@.blockchain_router == state.blockchain_router
                    &&& c@.num_of_this_blockchain == state.num_of_this_blockchain
                    &&& c@.min_token_amount == state.min_token_amount
                    &&& c@.max_token_amount == state.max_token_amount
                    &&& c@.acc_token_fee == state.acc_token_fee
                    &&& c@.fee_amount_of_blockchain == state.fee_amount_of_blockchain
                    &&& c@.rubic_addresses == entries_map(state.rubic_addresses@)
                    &&& c@.fee_amounts == entries_map(state.fee_amounts@)
                    &&& c@.existing_other_blockchain == state.existing_other_blockchain@.to_set()
                    &&& c@.processed_tx == hash_views(state.processed_tx@).to_set()
                    &&& c@.is_running == state.is_running
                },
            },
    {
        if !(is_valid_account_id(&state.owner) && is_valid_account_id(&state.manager)
            && is_valid_account_id(&state.relayer) && is_valid_account_id(&state.transfer_token)
            && is_valid_account_id(&state.blockchain_router)) {
            return Err(ContractError::InvalidAccountId);
        }
        if state.fee_amount_of_blockchain >= FEE_DENOMINATOR || !fee_rates_valid(
            &state.fee_amounts,
        ) {
            return Err(ContractError::InvalidFeeRate);
        }
        let fee_amounts = fee_map(&state.fee_amounts);
        proof {
            lemma_entries_map_values(state.fee_amounts@);
        }
        Ok(
            Contract {
                rubic_addresses: address_map(&state.rubic_addresses),
                fee_amounts,
                existing_other_blockchain: chain_set(&state.existing_other_blockchain),
                processed_tx: ProcessedTransactions::from_hashes(state.processed_tx),
                owner: state.owner,
                manager: state.manager,
                relayer: state.relayer,
                transfer_token: state.transfer_token,
                blockchain_router: state.blockchain_router,
                num_of_this_blockchain: state.num_of_this_blockchain,
                min_token_amount: state.min_token_amount,
                max_token_amount: state.max_token_amount,
                acc_token_fee: state.acc_token_fee,
                fee_amount_of_blockchain: state.fee_amount_of_blockchain,
                is_running: state.is_running,
            },
        )
    }
}

/// Each value of the map that entries make is the value of one of the entries.
proof fn lemma_entries_map_values(entries: Seq<(u64, u128)>)
    ensures
        forall|k: u64| #[trigger]
            entries_map(entries).contains_key(k) ==> exists|i: int|
                0 <= i < entries.len() && entries[i].1 == entries_map(entries)[k],
    decreases entries.len(),
{
    if entries.len() > 0 {
        let rest = entries.drop_last();
        lemma_entries_map_values(rest);
        assert forall|k: u64| #[trigger]
            entries_map(entries).contains_key(k) implies exists|i: int|
                0 <= i < entries.len() && entries[i].1 == entries_map(entries)[k] by {
            if k == entries.last().0 {
                assert(entries[entries.len() - 1].1 == entries_map(entries)[k]);
            } else {
                assert(entries_map(rest).contains_key(k));
                let i = choose|i: int| 0 <= i < rest.len() && rest[i].1 == entries_map(rest)[k];
                assert(entries[i].1 == entries_map(entries)[k]);
            }
        }
    }
}

} // verus!
