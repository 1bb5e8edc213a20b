//! Data carried by the settlement contract: rules, fee splits, payment
//! records, pending recoveries and timelocked operations.

use vstd::prelude::*;

use crate::address::{Address, BytesN32, KeyEq};

verus! {

/// Fee denominator: 10 000 basis points are 100%.
pub const BPS_DENOMINATOR: u32 = 10_000;

/// Smallest fee, in basis points, that a rule may set.
pub const MIN_FEE_BPS: u32 = 5;

/// Smallest payment amount that `store_payment_reference` accepts.
pub const MIN_PAYMENT_AMOUNT: i128 = 100;

/// Largest settlement delay, in ledgers, that a rule may set.
pub const MAX_SETTLEMENT_DELAY_LEDGER: u32 = 100_000;

/// Approximate ledgers per day (one ledger every ~5 s).
pub const LEDGERS_PER_DAY: u32 = 17_280;

/// Time between `initiate_recovery` and the earliest `execute_recovery`.
pub const RECOVERY_DELAY_SECONDS: u64 = 604_800;

/// Shortest delay that `schedule` accepts (48 hours).
pub const DEFAULT_TIMELOCK_DELAY_SECONDS: u64 = 172_800;

/// Configuration governing how a merchant's payments are settled.
#[derive(Clone, Copy, Debug, PartialEq, Eq, Structural)]
pub struct SettlementRule {
    /// Platform fee charged on each payment, in basis points.
    pub platform_fee_bps: u32,
    /// Network fee charged on each payment, in basis points.
    pub network_fee_bps: u32,
    /// Number of ledger closes to wait before settlement becomes eligible.
    pub settlement_delay_ledger: u32,
    /// Whether settlement is processed automatically after the delay.
    pub auto_settle: bool,
}

/// The rule used until the admin sets a global default or governance
/// publishes a fee configuration.
pub open spec fn spec_bootstrap_default_rule() -> SettlementRule {
    SettlementRule {
        platform_fee_bps: 100,
        network_fee_bps: 0,
        settlement_delay_ledger: 0,
        auto_settle: false,
    }
}

pub fn bootstrap_default_rule() -> (r: SettlementRule)
    ensures
        r == spec_bootstrap_default_rule(),
{
    SettlementRule {
        platform_fee_bps: 100,
        network_fee_bps: 0,
        settlement_delay_ledger: 0,
        auto_settle: false,
    }
}

/// How a payment's gross amount is divided.
#[derive(Clone, Copy, Debug, PartialEq, Eq, Structural)]
pub struct FeeSplit {
    pub gross_amount: i128,
    pub platform_fee_amount: i128,
    pub network_fee_amount: i128,
    pub merchant_amount: i128,
}

/// A stored payment, with the split and the rule snapshot it was made under.
#[derive(Clone, Copy, Debug, PartialEq, Eq, Structural)]
pub struct PaymentRecord {
    pub amount: i128,
    pub platform_fee_amount: i128,
    pub network_fee_amount: i128,
    pub merchant_amount: i128,
    pub platform_fee_bps: u32,
    pub network_fee_bps: u32,
    /// Ledger sequence at which the payment was recorded.
    pub ledger: u32,
    pub settlement_delay_ledger: u32,
    pub auto_settle: bool,
}

/// The fee configuration published by the governance contract.
#[derive(Clone, Copy, Debug, PartialEq, Eq, Structural)]
pub struct FeeConfig {
    pub platform_fee_bps: u32,
    pub network_fee_bps: u32,
}

/// A recovery started by the recovery address and not yet executed.
#[derive(Clone, Copy, Debug, PartialEq, Eq)]
pub struct PendingRecovery {
    pub new_admin: Address,
    pub execute_after: u64,
}

/// An administrative operation that can be scheduled behind the timelock.
#[derive(Clone, Copy, Debug, PartialEq, Eq)]
pub enum Operation {
    UpdateGovernance(Address),
    CancelRecovery,
    TransferAdmin(Address),
    Upgrade(BytesN32),
    RegisterMerchant(Address),
    UnregisterMerchant(Address),
    SetSettlementRule(Address, SettlementRule),
    ClearSettlementRule(Address),
    SetDefaultRule(SettlementRule),
}

impl KeyEq for Operation {
    fn key_eq(&self, other: &Self) -> (r: bool) {
        match (self, other) {
            (Operation::UpdateGovernance(a), Operation::UpdateGovernance(b)) => a.key_eq(b),
            (Operation::CancelRecovery, Operation::CancelRecovery) => true,
            (Operation::TransferAdmin(a), Operation::TransferAdmin(b)) => a.key_eq(b),
            (Operation::Upgrade(a), Operation::Upgrade(b)) => a.key_eq(b),
            (Operation::RegisterMerchant(a), Operation::RegisterMerchant(b)) => a.key_eq(b),
            (Operation::UnregisterMerchant(a), Operation::UnregisterMerchant(b)) => a.key_eq(b),
            (Operation::SetSettlementRule(a, ra), Operation::SetSettlementRule(b, rb)) => {
                a.key_eq(b) && *ra == *rb
            },
            (Operation::ClearSettlementRule(a), Operation::ClearSettlementRule(b)) => a.key_eq(b),
            (Operation::SetDefaultRule(ra), Operation::SetDefaultRule(rb)) => *ra == *rb,
            _ => false,
        }
    }
}

} // verus!
