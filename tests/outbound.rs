use rubic_cross_chain::{
    Contract, ContractError, CrossContractCall, PromiseOutcome, SwapAction, SwapToParams,
    TokenReceiverMessage,
};

fn s(x: &str) -> String {
    x.to_string()
}

fn contract() -> Contract {
    let mut c = Contract::new(
        s("owner.near"),
        s("manager.near"),
        s("relayer.near"),
        s("usdc.near"),
        s("ref.near"),
        1,
        100,
        200,
        0,
        true,
    )
    .unwrap();
    let owner = s("owner.near");
    c.add_other_blockchain(&owner, 7).unwrap();
    c.set_rubic_address_of_blockchain(&owner, 7, s("R")).unwrap();
    c
}

fn target(blockchain: u64, first: &str) -> SwapToParams {
    SwapToParams {
        second_path: vec![s(first), s("X")],
        min_amount_out: s("10"),
        blockchain,
        new_address: s("0xabc"),
        swap_to_crypto: false,
        signature: s("swapExactTokensForTokens"),
    }
}

fn legs(last_min_out: u128, last_token_out: &str) -> Vec<SwapAction> {
    vec![
        SwapAction {
            pool_id: 1,
            token_in: s("wnear.near"),
            amount_in: Some(500),
            token_out: s("dai.near"),
            min_amount_out: 1,
        },
        SwapAction {
            pool_id: 2,
            token_in: s("dai.near"),
            amount_in: None,
            token_out: s(last_token_out),
            min_amount_out: last_min_out,
        },
    ]
}

fn direct(blockchain: u64, first: &str) -> TokenReceiverMessage {
    TokenReceiverMessage::SwapTransferTokensToOther { swap_to_params: target(blockchain, first) }
}

fn swap(min_out: u128, blockchain: u64, first: &str) -> TokenReceiverMessage {
    TokenReceiverMessage::SwapTokensToOther {
        swap_actions: legs(min_out, "usdc.near"),
        swap_to_params: target(blockchain, first),
    }
}

#[test]
fn target_example_with_registered_relay_address() {
    let c = contract();
    assert_eq!(c.validate_swap_to(&target(7, "R")), Ok(()));
    assert_eq!(c.validate_swap_to(&target(7, "Q")), Err(ContractError::FirstAddressNotRubic));
    assert_eq!(c.validate_swap_to(&target(3, "R")), Err(ContractError::WrongBlockchain));
    assert_eq!(
        c.ft_on_transfer(s("usdc.near"), s("bob.near"), 150, direct(7, "R")),
        Ok(vec![])
    );
    assert_eq!(
        c.ft_on_transfer(s("usdc.near"), s("bob.near"), 150, direct(7, "Q")),
        Err(ContractError::FirstAddressNotRubic)
    );
    assert_eq!(
        c.ft_on_transfer(s("usdc.near"), s("bob.near"), 150, direct(3, "R")),
        Err(ContractError::WrongBlockchain)
    );
}

#[test]
fn this_chain_is_never_a_target() {
    let mut c = contract();
    let owner = s("owner.near");
    assert_eq!(c.add_other_blockchain(&owner, 1), Err(ContractError::CannotAddThisBlockchain));
    // a chain that becomes this chain's id is refused as a target
    c.set_num_of_this_blockchain(&owner, 7).unwrap();
    assert_eq!(c.validate_swap_to(&target(7, "R")), Err(ContractError::WrongBlockchain));
}

#[test]
fn target_needs_receiver_path_and_relay_address() {
    let mut c = contract();
    let mut t = target(7, "R");
    t.new_address = s("");
    assert_eq!(c.validate_swap_to(&t), Err(ContractError::EmptyNewAddress));
    let mut t = target(7, "R");
    t.second_path = vec![];
    assert_eq!(c.validate_swap_to(&t), Err(ContractError::EmptySecondPath));
    c.add_other_blockchain(&s("owner.near"), 8).unwrap();
    assert_eq!(c.validate_swap_to(&target(8, "R")), Err(ContractError::WrongBlockchainNumber));
}

#[test]
fn direct_deposit_bounds_at_every_boundary() {
    let c = contract();
    let token = s("usdc.near");
    let bob = s("bob.near");
    assert_eq!(
        c.ft_on_transfer(token.clone(), bob.clone(), 99, direct(7, "R")),
        Err(ContractError::NotEnoughTokens)
    );
    assert_eq!(c.ft_on_transfer(token.clone(), bob.clone(), 100, direct(7, "R")), Ok(vec![]));
    assert_eq!(c.ft_on_transfer(token.clone(), bob.clone(), 200, direct(7, "R")), Ok(vec![]));
    assert_eq!(
        c.ft_on_transfer(token, bob, 201, direct(7, "R")),
        Err(ContractError::TooMuchTokens)
    );
}

#[test]
fn swap_bounds_at_every_boundary() {
    let c = contract();
    let token = s("wnear.near");
    let bob = s("bob.near");
    assert_eq!(
        c.ft_on_transfer(token.clone(), bob.clone(), 1_000, swap(99, 7, "R")),
        Err(ContractError::NotEnoughTokens)
    );
    assert!(c.ft_on_transfer(token.clone(), bob.clone(), 1_000, swap(100, 7, "R")).is_ok());
    assert!(c.ft_on_transfer(token.clone(), bob.clone(), 1_000, swap(200, 7, "R")).is_ok());
    assert_eq!(
        c.ft_on_transfer(token, bob, 1_000, swap(201, 7, "R")),
        Err(ContractError::TooMuchTokens)
    );
}

#[test]
fn deposit_token_must_match_the_instruction() {
    let c = contract();
    assert_eq!(
        c.ft_on_transfer(s("wnear.near"), s("bob.near"), 150, direct(7, "R")),
        Err(ContractError::WrongTransferToken)
    );
    assert_eq!(
        c.ft_on_transfer(s("usdc.near"), s("bob.near"), 150, swap(150, 7, "R")),
        Err(ContractError::TokenInIsTransferToken)
    );
}

#[test]
fn swap_legs_are_checked() {
    let c = contract();
    assert_eq!(c.validate_swap_actions(&vec![]), Err(ContractError::EmptySwapActions));
    assert_eq!(
        c.validate_swap_actions(&legs(150, "dai.near")),
        Err(ContractError::LastTokenNotTransfer)
    );
    assert_eq!(c.validate_swap_actions(&legs(150, "usdc.near")), Ok(()));
    let msg = TokenReceiverMessage::SwapTokensToOther {
        swap_actions: vec![],
        swap_to_params: target(7, "R"),
    };
    assert_eq!(
        c.ft_on_transfer(s("wnear.near"), s("bob.near"), 150, msg),
        Err(ContractError::EmptySwapActions)
    );
}

#[test]
fn swap_deposit_is_routed_then_continued() {
    let c = contract();
    let calls = c.ft_on_transfer(s("wnear.near"), s("bob.near"), 1_000, swap(150, 7, "R")).unwrap();
    assert_eq!(
        calls,
        vec![
            CrossContractCall::FtTransferCall {
                token: s("wnear.near"),
                receiver_id: s("ref.near"),
                amount: 1_000,
                msg: None,
            },
            CrossContractCall::RouterSwap { router: s("ref.near"), actions: legs(150, "usdc.near") },
            CrossContractCall::AfterSwapTo {
                sender_id: s("bob.near"),
                token_in: s("wnear.near"),
                amount_in: 1_000,
                min_amount_out: 150,
            },
        ]
    );
}

#[test]
fn failed_swap_refunds_the_deposited_token() {
    let c = contract();
    let calls = c.ft_on_transfer(s("wnear.near"), s("bob.near"), 1_000, swap(150, 7, "R")).unwrap();
    let (sender_id, token_in, amount_in, min_amount_out) = match calls.last().unwrap() {
        CrossContractCall::AfterSwapTo { sender_id, token_in, amount_in, min_amount_out } => {
            (sender_id.clone(), token_in.clone(), *amount_in, *min_amount_out)
        }
        _ => panic!("the calls end with the continuation"),
    };
    let refund = c
        .callback_after_swap_to(&vec![PromiseOutcome::Failed], sender_id, token_in, amount_in, min_amount_out)
        .unwrap();
    assert_eq!(
        refund,
        vec![
            CrossContractCall::RouterWithdraw {
                router: s("ref.near"),
                token_id: s("wnear.near"),
                amount: 1_000,
            },
            CrossContractCall::FtTransfer {
                token: s("wnear.near"),
                receiver_id: s("bob.near"),
                amount: 1_000,
            },
        ]
    );
}

#[test]
fn successful_swap_withdraws_toward_the_target() {
    let c = contract();
    let out = c
        .callback_after_swap_to(
            &vec![PromiseOutcome::Successful(vec![])],
            s("bob.near"),
            s("wnear.near"),
            1_000,
            150,
        )
        .unwrap();
    assert_eq!(
        out,
        vec![CrossContractCall::RouterWithdraw {
            router: s("ref.near"),
            token_id: s("usdc.near"),
            amount: 150,
        }]
    );
}

#[test]
fn swap_continuation_checks_its_result() {
    let c = contract();
    assert_eq!(
        c.callback_after_swap_to(&vec![PromiseOutcome::NotReady], s("bob.near"), s("wnear.near"), 1, 1),
        Err(ContractError::ResultNotReady)
    );
    assert_eq!(
        c.callback_after_swap_to(&vec![], s("bob.near"), s("wnear.near"), 1, 1),
        Err(ContractError::UnexpectedResultCount)
    );
    assert_eq!(
        c.callback_after_swap_to(&vec![PromiseOutcome::Failed], s("bob.near"), s("W"), 1, 1),
        Err(ContractError::InvalidAccountId)
    );
}

#[test]
fn deposits_refused_while_paused() {
    let mut c = contract();
    c.set_is_running(&s("owner.near"), false).unwrap();
    assert_eq!(
        c.ft_on_transfer(s("usdc.near"), s("bob.near"), 150, direct(7, "R")),
        Err(ContractError::ContractPaused)
    );
    assert_eq!(
        c.ft_on_transfer(s("wnear.near"), s("bob.near"), 1_000, swap(150, 7, "R")),
        Err(ContractError::ContractPaused)
    );
    assert_eq!(
        c.ft_on_transfer(s("x"), s("?"), 0, direct(1, "Q")),
        Err(ContractError::ContractPaused)
    );
}

#[test]
fn deposit_from_malformed_sender_is_refused() {
    let c = contract();
    assert_eq!(
        c.ft_on_transfer(s("usdc.near"), s("bob..near"), 150, direct(7, "R")),
        Err(ContractError::InvalidAccountId)
    );
}
