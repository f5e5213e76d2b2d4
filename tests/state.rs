use rubic_cross_chain::{Contract, ContractError, ContractState, PromiseOutcome, SwapFromParams};

fn s(x: &str) -> String {
    x.to_string()
}

fn populated() -> Contract {
    let mut c = Contract::new(
        s("owner.near"),
        s("manager.near"),
        s("relayer.near"),
        s("usdc.near"),
        s("ref.near"),
        1,
        10,
        1_000_000,
        2_000,
        true,
    )
    .unwrap();
    let owner = s("owner.near");
    c.add_other_blockchain(&owner, 7).unwrap();
    c.add_other_blockchain(&owner, 9).unwrap();
    c.set_rubic_address_of_blockchain(&owner, 7, s("R7")).unwrap();
    c.set_rubic_address_of_blockchain(&owner, 9, s("R9")).unwrap();
    c.set_fee_amount_of_blockchain(&owner, 7, 1_500).unwrap();
    let p = SwapFromParams {
        new_address: s("alice.near"),
        token_out: s("usdc.near"),
        amount_in_with_fee: 1_000_000,
        amount_out_min: 0,
        original_tx_hash: s("0xfeed"),
    };
    c.swap_tokens_to_user_with_fee(&s("relayer.near"), p, None).unwrap();
    c.callback_after_swap_from(&vec![PromiseOutcome::Successful(vec![])], s("0xfeed")).unwrap();
    c
}

#[test]
fn state_round_trip_keeps_everything() {
    let c = populated();
    let st = c.to_state();
    let mut chains = st.existing_other_blockchain.clone();
    chains.sort();
    assert_eq!(chains, vec![7, 9]);
    let mut addresses = st.rubic_addresses.clone();
    addresses.sort();
    assert_eq!(addresses, vec![(7, s("R7")), (9, s("R9"))]);
    assert_eq!(st.fee_amounts, vec![(7, 1_500)]);
    assert_eq!(st.processed_tx, vec![s("0xfeed")]);
    assert_eq!(st.acc_token_fee, 2_000);
    let back = Contract::from_state(st).unwrap();
    assert_eq!(back.get_owner(), s("owner.near"));
    assert_eq!(back.get_acc_token_fee(), 2_000);
    assert_eq!(back.get_rubic_address(9), Ok(s("R9")));
    assert_eq!(back.get_fee_amount_of(7), Some(1_500));
    assert!(back.existing_other_blockchain(7));
    assert!(back.is_processed_tx(&s("0xfeed")));
    assert!(!back.is_processed_tx(&s("0xbeef")));
}

#[test]
fn restore_keeps_the_last_entry_of_a_key() {
    let mut st = populated().to_state();
    st.rubic_addresses = vec![(7, s("old")), (7, s("new"))];
    let c = Contract::from_state(st).unwrap();
    assert_eq!(c.get_rubic_address(7), Ok(s("new")));
}

#[test]
fn restore_refuses_invalid_state() {
    let base: ContractState = populated().to_state();
    let mut st = base.clone();
    st.relayer = s("Relayer");
    assert_eq!(Contract::from_state(st).err(), Some(ContractError::InvalidAccountId));
    let mut st = base.clone();
    st.fee_amount_of_blockchain = 1_000_000;
    assert_eq!(Contract::from_state(st).err(), Some(ContractError::InvalidFeeRate));
    let mut st = base;
    st.fee_amounts.push((3, 2_000_000));
    assert_eq!(Contract::from_state(st).err(), Some(ContractError::InvalidFeeRate));
}
