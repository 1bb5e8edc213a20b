//! The contract's error codes and shared storage slot names.

use vstd::prelude::*;

verus! {

/// Errors returned by the settlement contract; `code` gives the on-chain number.
#[derive(Clone, Copy, Debug, PartialEq, Eq, Structural)]
pub enum SettlementError {
    /// `init()` has already been called. Only one initialization is permitted.
    AlreadyInitialized,
    /// `init()` has not been called.
    NotInitialized,
    /// The caller is not the admin, or a required authorization is missing.
    Unauthorized,
    /// `register_merchant` was called for an address that is already registered.
    MerchantExists,
    /// The target merchant address is not registered.
    MerchantMissing,
    /// A fee BPS value is below `MIN_FEE_BPS`, above `BPS_DENOMINATOR`, or
    /// the two fees together exceed `BPS_DENOMINATOR`.
    InvalidFeeBps,
    /// The 32-byte payment reference already exists in storage.
    DuplicatePaymentReference,
    /// The contract is paused.
    Paused,
    /// No merchant-specific rule has been set.
    MerchantRuleNotSet,
    /// The supplied address is an empty string.
    EmptyAddress,
    /// The supplied address is the zero address.
    ZeroAddress,
    /// The all-zero 32-byte payment reference is reserved.
    InvalidPaymentReference,
    /// `settlement_delay_ledger` exceeds `MAX_SETTLEMENT_DELAY_LEDGER`.
    InvalidSettlementDelay,
    /// The new admin is invalid (zero, or equal to the current admin).
    InvalidAdmin,
    InvalidGovernance,
    InvalidRecoveryAddress,
    RecoveryNotPending,
    RecoveryDelayActive,
    /// `amount * bps` plus the rounding term would overflow `i128`.
    AmountOverflow,
    /// The scheduled operation is not yet ready for execution.
    ExecutionNotReady,
    /// The operation has not been scheduled.
    OperationNotScheduled,
    /// The operation has already been scheduled.
    OperationAlreadyScheduled,
    /// The deployed Wasm does not implement the required interface.
    InvalidWasmInterface,
    /// The multisig threshold is zero or larger than the admin set.
    InvalidThreshold,
    GovernanceCallFailed,
    /// A rule's fee exceeds the ceiling configured in governance.
    FeeExceedsGovernanceConfig,
    /// The payment amount is below `MIN_PAYMENT_AMOUNT`.
    AmountTooSmall,
    AmountZero,
    AmountNegative,
}

impl SettlementError {
    pub open spec fn spec_code(self) -> u32 {
        match self {
            SettlementError::AlreadyInitialized => 1,
            SettlementError::NotInitialized => 2,
            SettlementError::Unauthorized => 3,
            SettlementError::MerchantExists => 4,
            SettlementError::MerchantMissing => 5,
            SettlementError::InvalidFeeBps => 6,
            SettlementError::DuplicatePaymentReference => 8,
            SettlementError::Paused => 9,
            SettlementError::MerchantRuleNotSet => 10,
            SettlementError::EmptyAddress => 20,
            SettlementError::ZeroAddress => 21,
            SettlementError::InvalidPaymentReference => 12,
            SettlementError::InvalidSettlementDelay => 13,
            SettlementError::InvalidAdmin => 14,
            SettlementError::InvalidGovernance => 15,
            SettlementError::InvalidRecoveryAddress => 16,
            SettlementError::RecoveryNotPending => 17,
            SettlementError::RecoveryDelayActive => 18,
            SettlementError::AmountOverflow => 19,
            SettlementError::ExecutionNotReady => 22,
            SettlementError::OperationNotScheduled => 23,
            SettlementError::OperationAlreadyScheduled => 24,
            SettlementError::InvalidWasmInterface => 25,
            SettlementError::InvalidThreshold => 26,
            SettlementError::GovernanceCallFailed => 27,
            SettlementError::FeeExceedsGovernanceConfig => 28,
            SettlementError::AmountTooSmall => 29,
            SettlementError::AmountZero => 30,
            SettlementError::AmountNegative => 31,
        }
    }

    /// The contract error number, as it appears in `Error(Contract, #n)`.
    pub fn code(&self) -> (r: u32)
        ensures
            r == self.spec_code(),
    {
        match self {
            SettlementError::AlreadyInitialized => 1,
            SettlementError::NotInitialized => 2,
            SettlementError::Unauthorized => 3,
            SettlementError::MerchantExists => 4,
            SettlementError::MerchantMissing => 5,
            SettlementError::InvalidFeeBps => 6,
            SettlementError::DuplicatePaymentReference => 8,
            SettlementError::Paused => 9,
            SettlementError::MerchantRuleNotSet => 10,
            SettlementError::EmptyAddress => 20,
            SettlementError::ZeroAddress => 21,
            SettlementError::InvalidPaymentReference => 12,
            SettlementError::InvalidSettlementDelay => 13,
            SettlementError::InvalidAdmin => 14,
            SettlementError::InvalidGovernance => 15,
            SettlementError::InvalidRecoveryAddress => 16,
            SettlementError::RecoveryNotPending => 17,
            SettlementError::RecoveryDelayActive => 18,
            SettlementError::AmountOverflow => 19,
            SettlementError::ExecutionNotReady => 22,
            SettlementError::OperationNotScheduled => 23,
            SettlementError::OperationAlreadyScheduled => 24,
            SettlementError::InvalidWasmInterface => 25,
            SettlementError::InvalidThreshold => 26,
            SettlementError::GovernanceCallFailed => 27,
            SettlementError::FeeExceedsGovernanceConfig => 28,
            SettlementError::AmountTooSmall => 29,
            SettlementError::AmountZero => 30,
            SettlementError::AmountNegative => 31,
        }
    }
}

/// Instance-storage slots shared by every BettaPay contract.
#[derive(Clone, Copy, Debug, PartialEq, Eq, Structural)]
pub enum CommonDataKey {
    /// Contract admin address.
    Admin,
    /// Recovery address authorised to initiate the recovery flow.
    RecoveryAddress,
    /// Pending recovery operation, present only between `initiate_recovery`
    /// and `execute_recovery`.
    PendingRecovery,
    /// Pause flag controlling whether mutating operations are blocked.
    Paused,
}

} // verus!
