//! Events published by the settlement contract. Each variant names one
//! event; its fields are the event's identifiers and data.

use vstd::prelude::*;

use crate::address::{Address, BytesN32};
use crate::types::{Operation, SettlementRule};

verus! {

#[derive(Clone, Copy, Debug, PartialEq, Eq)]
pub enum ContractEvent {
    /// `governance_updated`: `(admin, new_governance)`.
    GovernanceUpdated { admin: Address, new_governance: Address },
    /// `recovery_initiated`: `(recovery_address, new_admin, execute_after)`.
    RecoveryInitiated { recovery_address: Address, new_admin: Address, execute_after: u64 },
    /// `recovery_cancelled`: the admin.
    RecoveryCancelled { admin: Address },
    /// `recovery_executed`: the new admin.
    RecoveryExecuted { new_admin: Address },
    /// `admin`: the new admin.
    AdminTransferred { new_admin: Address },
    /// `contract_upgraded`, topic the new Wasm hash: the admin.
    ContractUpgraded { new_wasm_hash: BytesN32, admin: Address },
    /// `pause`: `(admin, true)`.
    Paused { admin: Address },
    /// `unpause`: `(admin, false)`.
    Unpaused { admin: Address },
    /// `merchant_registered`, topic the merchant: the admin.
    MerchantRegistered { merchant: Address, admin: Address },
    /// `merchant_unregistered`, topic the merchant: the admin.
    MerchantUnregistered { merchant: Address, admin: Address },
    /// `settlement_rule_updated`, topic the merchant: `(admin, previous, current)`.
    SettlementRuleUpdated {
        merchant: Address,
        admin: Address,
        previous: SettlementRule,
        current: SettlementRule,
    },
    /// `settlement_rule_cleared` published when a merchant is unregistered,
    /// topic the merchant: `(admin, removed)`.
    SettlementRuleRemoved { merchant: Address, admin: Address, removed: SettlementRule },
    /// `settlement_rule_cleared`, topic the merchant: `(admin, removed, fallback)`.
    SettlementRuleCleared {
        merchant: Address,
        admin: Address,
        removed: SettlementRule,
        fallback: SettlementRule,
    },
    /// `default_rule_updated`: `(admin, previous, current)`.
    DefaultRuleUpdated { admin: Address, previous: SettlementRule, current: SettlementRule },
    /// `payment_stored`, topics the merchant and the reference.
    PaymentStored { merchant: Address, reference: BytesN32 },
    /// `bootstrap_fallback`: the bootstrap rule that was applied.
    BootstrapFallback { rule: SettlementRule },
    /// `op_scheduled`, topic the operation: `(caller, execute_at)`.
    OperationScheduled { operation: Operation, caller: Address, execute_at: u64 },
    /// `op_executed`, topic the operation.
    OperationExecuted { operation: Operation },
    /// `op_cancelled`, topic the operation: the caller.
    OperationCancelled { operation: Operation, caller: Address },
}

/// An event together with the contract that published it.
#[derive(Clone, Copy, Debug, PartialEq, Eq)]
pub struct EmittedEvent {
    pub contract: Address,
    pub event: ContractEvent,
}

} // verus!
