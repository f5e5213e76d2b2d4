use vstd::prelude::*;

verus! {

/// Why an entry point or a continuation refused to act. A refusal leaves the
/// contract's state as it was.
#[derive(Clone, Copy, Debug, PartialEq, Eq, Structural)]
pub enum ContractError {
    /// The contract is paused.
    ContractPaused,
    /// Only the relayer may call this.
    OnlyRelayer,
    /// Only the owner may call this.
    OnlyOwner,
    /// Only the owner or the manager may call this.
    OnlyOwnerOrManager,
    /// An account id is not well formed.
    InvalidAccountId,
    /// An amount is below the minimum.
    NotEnoughTokens,
    /// An amount is above the maximum.
    TooMuchTokens,
    /// The settlement was already processed.
    SwapAlreadyProcessed,
    /// The router message holds no action.
    EmptyRouterActions,
    /// The receiver on the target chain is empty.
    EmptyNewAddress,
    /// The path on the target chain is empty.
    EmptySecondPath,
    /// The target chain is not enabled, or is this chain.
    WrongBlockchain,
    /// No relay address is registered for the chain.
    WrongBlockchainNumber,
    /// The path on the target chain does not start with the relay address.
    FirstAddressNotRubic,
    /// The deposited token must be the transfer token.
    WrongTransferToken,
    /// The deposited token must not be the transfer token.
    TokenInIsTransferToken,
    /// The swap legs are empty.
    EmptySwapActions,
    /// The last swap leg does not end in the transfer token.
    LastTokenNotTransfer,
    /// A fee rate is not below one million parts per million.
    InvalidFeeRate,
    /// The accumulated fee would leave the range of `u128`.
    FeeOverflow,
    /// This chain's own id cannot be a target chain.
    CannotAddThisBlockchain,
    /// The chain is already a target chain.
    BlockchainAlreadyAdded,
    /// The chain is not a target chain.
    BlockchainNotAdded,
    /// A continuation did not receive exactly one result.
    UnexpectedResultCount,
    /// A continuation received a result that is not known yet.
    ResultNotReady,
}

} // verus!
