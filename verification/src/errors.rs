use vstd::prelude::*;

verus! {

/// The error taxonomy of the library. Every failing operation reports exactly
/// one of these kinds; no failure is silently downgraded.
#[derive(Clone, Copy, Debug, PartialEq, Eq, Structural)]
pub enum TokenExtensionError {
    InvalidExtensionType,
    ExtensionAlreadyInitialized,
    InvalidAuthority,
    InvalidTransferFeeConfig,
    TransferFeeCalculationError,
    InsufficientFundsForFee,
    InvalidDefaultAccountState,
    AccountFrozen,
    InvalidInterestRate,
    InterestRateUpdateNotAllowed,
    InvalidDelegate,
    CpiGuardEnabled,
    TransferHookProgramNotFound,
    InvalidMetadata,
    MetadataFieldNotFound,
    InvalidGroupConfig,
    GroupSizeLimitExceeded,
    InvalidMemberConfig,
    MemberNotFoundInGroup,
    InvalidUiAmountMultiplier,
    MintPaused,
    InvalidCloseAuthority,
    MintSupplyNotZero,
    NonTransferableToken,
    MemoRequiredForTransfer,
    InvalidMemo,
}

} // verus!
