use vstd::prelude::*;

verus! {

/// A settlement relayed from the other chain.
/// * `new_address` - local account that receives the value
/// * `token_out` - token that the user wants to receive
/// * `amount_in_with_fee` - amount deposited on the other chain, fee included
/// * `amount_out_min` - minimum amount of `token_out` after an optional swap
/// * `original_tx_hash` - hash of the deposit transaction on the other chain
#[derive(Clone, Debug, PartialEq, Eq)]
pub struct SwapFromParams {
    pub new_address: String,
    pub token_out: String,
    pub amount_in_with_fee: u128,
    pub amount_out_min: u128,
    pub original_tx_hash: String,
}

/// Where an outbound swap delivers on the target chain.
/// * `second_path` - token path on the target chain; its first entry must be the
///   relay address registered for that chain
/// * `min_amount_out` - minimum amount of the final token on the target chain
/// * `blockchain` - id of the target chain
/// * `new_address` - receiver on the target chain
/// * `swap_to_crypto` - whether the receiver gets the native coin
/// * `signature` - router method signature used on the target chain
#[derive(Clone, Debug, PartialEq, Eq)]
pub struct SwapToParams {
    pub second_path: Vec<String>,
    pub min_amount_out: String,
    pub blockchain: u64,
    pub new_address: String,
    pub swap_to_crypto: bool,
    pub signature: String,
}

/// Instruction carried by a deposit into this contract.
/// * `SwapTransferTokensToOther` - the deposit is already the transfer token and
///   goes on as it is
/// * `SwapTokensToOther` - the deposit is swapped into the transfer token first
#[derive(Clone, Debug, PartialEq, Eq)]
pub enum TokenReceiverMessage {
    SwapTransferTokensToOther { swap_to_params: SwapToParams },
    SwapTokensToOther { swap_actions: Vec<SwapAction>, swap_to_params: SwapToParams },
}

/// Instruction that the router executes on a deposit made to it.
#[derive(Clone, Debug, PartialEq, Eq)]
pub enum RefFinanceReceiverMessage {
    ExecuteSwap { referal_id: Option<String>, force: u8, actions: Vec<Action> },
}

/// One leg of a swap through the router.
/// * `pool_id` - pool used for the leg
/// * `token_in` - token swapped from
/// * `amount_in` - amount swapped; `None` takes the output of the previous leg
/// * `token_out` - token swapped into
/// * `min_amount_out` - least acceptable output of the leg
#[derive(Clone, Debug, PartialEq, Eq)]
pub struct SwapAction {
    pub pool_id: u64,
    pub token_in: String,
    pub amount_in: Option<u128>,
    pub token_out: String,
    pub min_amount_out: u128,
}

/// One step that the router executes.
#[derive(Clone, Debug, PartialEq, Eq)]
pub enum Action {
    Swap(SwapAction),
}

} // verus!
