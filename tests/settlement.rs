use rubic_cross_chain::fee::amount_after_fee;
use rubic_cross_chain::{
    Action, Contract, ContractError, CrossContractCall, PromiseOutcome, RefFinanceReceiverMessage,
    SwapAction, SwapFromParams,
};

fn s(x: &str) -> String {
    x.to_string()
}

fn contract_with(fee_rate: u128, min: u128, max: u128) -> Contract {
    Contract::new(
        s("owner.near"),
        s("manager.near"),
        s("relayer.near"),
        s("usdc.near"),
        s("ref.near"),
        1,
        min,
        max,
        fee_rate,
        true,
    )
    .unwrap()
}

fn settlement(hash: &str, amount: u128) -> SwapFromParams {
    SwapFromParams {
        new_address: s("alice.near"),
        token_out: s("wnear.near"),
        amount_in_with_fee: amount,
        amount_out_min: 5,
        original_tx_hash: s(hash),
    }
}

fn leg(token_in: &str, amount_in: Option<u128>, token_out: &str) -> Action {
    Action::Swap(SwapAction {
        pool_id: 3,
        token_in: s(token_in),
        amount_in,
        token_out: s(token_out),
        min_amount_out: 1,
    })
}

#[test]
fn fee_example_one_million_at_two_thousand() {
    assert_eq!(amount_after_fee(1_000_000, 2_000), 998_000);
    let mut c = contract_with(2_000, 1, 10_000_000);
    let calls = c
        .swap_tokens_to_user_with_fee(&s("relayer.near"), settlement("h1", 1_000_000), None)
        .unwrap();
    assert_eq!(c.get_acc_token_fee(), 2_000);
    assert_eq!(
        calls,
        vec![
            CrossContractCall::FtTransfer {
                token: s("usdc.near"),
                receiver_id: s("alice.near"),
                amount: 998_000,
            },
            CrossContractCall::AfterSwapFrom { original_tx_hash: s("h1") },
        ]
    );
}

#[test]
fn fee_rounds_in_favour_of_the_fee() {
    // 999 * 998_000 / 1_000_000 = 997.002, passed on 997, fee 2
    assert_eq!(amount_after_fee(999, 2_000), 997);
    assert_eq!(amount_after_fee(1, 1), 0);
    assert_eq!(amount_after_fee(0, 2_000), 0);
    assert_eq!(amount_after_fee(12_345, 0), 12_345);
}

#[test]
fn fee_of_the_largest_amount_does_not_overflow() {
    assert_eq!(amount_after_fee(u128::MAX, 0), u128::MAX);
    assert_eq!(amount_after_fee(u128::MAX, 500_000), u128::MAX / 2);
    let a = u128::MAX;
    let after = amount_after_fee(a, 999_999);
    assert_eq!(after, a / 1_000_000 + (a % 1_000_000) / 1_000_000);
}

#[test]
fn fee_conservation_on_values() {
    let mut c = contract_with(3_333, 1, u128::MAX);
    let amounts: [u128; 4] = [1, 999_999, 1_000_001, 123_456_789_012];
    let mut expected_fee: u128 = 0;
    for (i, a) in amounts.iter().enumerate() {
        let hash = format!("h{}", i);
        let calls = c
            .swap_tokens_to_user_with_fee(&s("relayer.near"), settlement(&hash, *a), None)
            .unwrap();
        let after = match &calls[0] {
            CrossContractCall::FtTransfer { amount, .. } => *amount,
            _ => panic!("expected a transfer"),
        };
        assert_eq!(after, a * (1_000_000 - 3_333) / 1_000_000);
        expected_fee += a - after;
        assert_eq!(c.get_acc_token_fee(), expected_fee);
    }
}

#[test]
fn settlement_is_recorded_only_after_success() {
    let mut c = contract_with(0, 1, 1_000);
    let relayer = s("relayer.near");
    c.swap_tokens_to_user_with_fee(&relayer, settlement("h1", 100), None).unwrap();
    assert!(!c.is_processed_tx(&s("h1")));
    c.callback_after_swap_from(&vec![PromiseOutcome::Failed], s("h1")).unwrap();
    assert!(!c.is_processed_tx(&s("h1")));
    // the relayer may submit again after a failure
    c.swap_tokens_to_user_with_fee(&relayer, settlement("h1", 100), None).unwrap();
    c.callback_after_swap_from(&vec![PromiseOutcome::Successful(vec![])], s("h1")).unwrap();
    assert!(c.is_processed_tx(&s("h1")));
}

#[test]
fn second_submission_of_a_settled_hash_is_refused() {
    let mut c = contract_with(2_000, 1, 10_000_000);
    let relayer = s("relayer.near");
    c.swap_tokens_to_user_with_fee(&relayer, settlement("h1", 1_000_000), None).unwrap();
    c.callback_after_swap_from(&vec![PromiseOutcome::Successful(vec![1])], s("h1")).unwrap();
    let fee = c.get_acc_token_fee();
    let again = c.swap_tokens_to_user_with_fee(&relayer, settlement("h1", 1_000_000), None);
    assert_eq!(again, Err(ContractError::SwapAlreadyProcessed));
    assert_eq!(c.get_acc_token_fee(), fee);
    // another hash still goes through
    assert!(c.swap_tokens_to_user_with_fee(&relayer, settlement("h2", 1_000_000), None).is_ok());
}

#[test]
fn settlement_bounds_at_every_boundary() {
    let mut c = contract_with(0, 100, 200);
    let relayer = s("relayer.near");
    assert_eq!(
        c.swap_tokens_to_user_with_fee(&relayer, settlement("a", 99), None),
        Err(ContractError::NotEnoughTokens)
    );
    assert!(c.swap_tokens_to_user_with_fee(&relayer, settlement("b", 100), None).is_ok());
    assert!(c.swap_tokens_to_user_with_fee(&relayer, settlement("c", 200), None).is_ok());
    assert_eq!(
        c.swap_tokens_to_user_with_fee(&relayer, settlement("d", 201), None),
        Err(ContractError::TooMuchTokens)
    );
}

#[test]
fn settlement_only_for_relayer() {
    let mut c = contract_with(0, 1, 200);
    assert_eq!(
        c.swap_tokens_to_user_with_fee(&s("owner.near"), settlement("a", 50), None),
        Err(ContractError::OnlyRelayer)
    );
    assert_eq!(c.get_acc_token_fee(), 0);
}

#[test]
fn settlement_refused_while_paused() {
    let mut c = contract_with(2_000, 1, 10_000_000);
    c.set_is_running(&s("manager.near"), false).unwrap();
    assert_eq!(
        c.swap_tokens_to_user_with_fee(&s("relayer.near"), settlement("a", 1_000), None),
        Err(ContractError::ContractPaused)
    );
    // even an otherwise invalid request reports the pause
    assert_eq!(
        c.swap_tokens_to_user_with_fee(&s("nobody"), settlement("a", 0), None),
        Err(ContractError::ContractPaused)
    );
    assert_eq!(c.get_acc_token_fee(), 0);
}

#[test]
fn settlement_refuses_a_malformed_receiver() {
    let mut c = contract_with(0, 1, 200);
    let mut p = settlement("a", 50);
    p.new_address = s("Alice.near");
    assert_eq!(
        c.swap_tokens_to_user_with_fee(&s("relayer.near"), p, None),
        Err(ContractError::InvalidAccountId)
    );
    let mut p = settlement("a", 50);
    p.token_out = s("x");
    assert_eq!(
        c.swap_tokens_to_user_with_fee(&s("relayer.near"), p, None),
        Err(ContractError::InvalidAccountId)
    );
}

#[test]
fn settlement_with_router_message_rewrites_first_leg() {
    let mut c = contract_with(2_000, 1, 10_000_000);
    let msg = RefFinanceReceiverMessage::ExecuteSwap {
        referal_id: None,
        force: 0,
        actions: vec![
            leg("usdc.near", Some(5), "dai.near"),
            leg("dai.near", None, "wnear.near"),
        ],
    };
    let calls = c
        .swap_tokens_to_user_with_fee(&s("relayer.near"), settlement("h1", 1_000_000), Some(msg))
        .unwrap();
    let expected_msg = RefFinanceReceiverMessage::ExecuteSwap {
        referal_id: None,
        force: 0,
        actions: vec![
            leg("usdc.near", Some(998_000), "dai.near"),
            leg("dai.near", None, "wnear.near"),
        ],
    };
    assert_eq!(
        calls,
        vec![
            CrossContractCall::FtTransferCall {
                token: s("usdc.near"),
                receiver_id: s("ref.near"),
                amount: 998_000,
                msg: Some(expected_msg),
            },
            CrossContractCall::FtTransfer {
                token: s("wnear.near"),
                receiver_id: s("alice.near"),
                amount: 5,
            },
            CrossContractCall::AfterSwapFrom { original_tx_hash: s("h1") },
        ]
    );
    assert_eq!(c.get_acc_token_fee(), 2_000);
}

#[test]
fn settlement_with_empty_router_message_is_refused() {
    let mut c = contract_with(2_000, 1, 10_000_000);
    let msg = RefFinanceReceiverMessage::ExecuteSwap { referal_id: None, force: 0, actions: vec![] };
    assert_eq!(
        c.swap_tokens_to_user_with_fee(&s("relayer.near"), settlement("h1", 1_000), Some(msg)),
        Err(ContractError::EmptyRouterActions)
    );
    assert_eq!(c.get_acc_token_fee(), 0);
    let msg = RefFinanceReceiverMessage::ExecuteSwap {
        referal_id: Some(s("-bad")),
        force: 0,
        actions: vec![leg("usdc.near", None, "dai.near")],
    };
    assert_eq!(
        c.swap_tokens_to_user_with_fee(&s("relayer.near"), settlement("h1", 1_000), Some(msg)),
        Err(ContractError::InvalidAccountId)
    );
}

#[test]
fn fee_accrual_overflow_is_refused() {
    let mut c = contract_with(999_999, 0, u128::MAX);
    let relayer = s("relayer.near");
    c.swap_tokens_to_user_with_fee(&relayer, settlement("h1", u128::MAX), None).unwrap();
    let fee = c.get_acc_token_fee();
    assert_eq!(
        c.swap_tokens_to_user_with_fee(&relayer, settlement("h2", u128::MAX), None),
        Err(ContractError::FeeOverflow)
    );
    assert_eq!(c.get_acc_token_fee(), fee);
}

#[test]
fn continuation_needs_exactly_one_known_result() {
    let mut c = contract_with(0, 1, 200);
    assert_eq!(
        c.callback_after_swap_from(&vec![], s("h1")),
        Err(ContractError::UnexpectedResultCount)
    );
    assert_eq!(
        c.callback_after_swap_from(
            &vec![PromiseOutcome::Failed, PromiseOutcome::Successful(vec![])],
            s("h1")
        ),
        Err(ContractError::UnexpectedResultCount)
    );
    assert_eq!(
        c.callback_after_swap_from(&vec![PromiseOutcome::NotReady], s("h1")),
        Err(ContractError::ResultNotReady)
    );
    assert!(!c.is_processed_tx(&s("h1")));
}
