//! The contract's state as mathematical values, and what each entry point
//! does to it: for every call, either the error it answers with (and then
//! nothing changes), or the new state, the events it publishes and its result.

use vstd::prelude::*;

use crate::address::{Address, BytesN32};
use crate::env::EnvModel;
use crate::errors::SettlementError;
use crate::events::ContractEvent;
use crate::fees::{spec_split, split_would_overflow};
use crate::types::{
    spec_bootstrap_default_rule, FeeConfig, FeeSplit, Operation, PaymentRecord, PendingRecovery,
    SettlementRule, BPS_DENOMINATOR, DEFAULT_TIMELOCK_DELAY_SECONDS, MAX_SETTLEMENT_DELAY_LEDGER,
    MIN_FEE_BPS, MIN_PAYMENT_AMOUNT, RECOVERY_DELAY_SECONDS,
};

verus! {

/// The persistent state of one settlement contract.
#[verifier::ext_equal]
pub struct ContractModel {
    /// The contract's own address, the source of its events.
    pub address: Address,
    /// The admin set; empty until `init`. The first entry is the admin.
    pub admins: Seq<Address>,
    pub threshold: u32,
    pub governance: Option<Address>,
    pub recovery_address: Option<Address>,
    pub pending_recovery: Option<PendingRecovery>,
    pub paused: bool,
    pub merchants: Set<Address>,
    pub rules: Map<Address, SettlementRule>,
    pub default_rule: Option<SettlementRule>,
    pub payments: Map<BytesN32, PaymentRecord>,
    pub scheduled: Map<Operation, u64>,
    pub wasm_hash: Option<BytesN32>,
}

/// A successful call: the state after it, the events it published, its result.
pub struct Step<T> {
    pub state: ContractModel,
    pub events: Seq<ContractEvent>,
    pub output: T,
}

pub open spec fn fail<T>(err: SettlementError) -> Result<Step<T>, SettlementError> {
    Err(err)
}

pub open spec fn done<T>(state: ContractModel, events: Seq<ContractEvent>, output: T) -> Result<
    Step<T>,
    SettlementError,
> {
    Ok(Step { state, events, output })
}

/// The call answered `r`, and contract and host went from `(c0, e0)` to
/// `(c1, e1)`, as `outcome` says: on success the new state and the published
/// events; on an error nothing changed at all.
pub open spec fn applies<T>(
    outcome: Result<Step<T>, SettlementError>,
    c0: ContractModel,
    e0: EnvModel,
    c1: ContractModel,
    e1: EnvModel,
    r: Result<T, SettlementError>,
) -> bool {
    match outcome {
        Ok(step) => {
            &&& r == Ok::<T, SettlementError>(step.output)
            &&& c1 == step.state
            &&& e1 == e0.emit(c0.address, step.events)
        },
        Err(err) => {
            &&& r == Err::<T, SettlementError>(err)
            &&& c1 == c0
            &&& e1 == e0
        },
    }
}

/// Why a merchant rule is refused, if it is.
pub open spec fn rule_error(rule: SettlementRule) -> Option<SettlementError> {
    if rule.platform_fee_bps > BPS_DENOMINATOR || rule.network_fee_bps > BPS_DENOMINATOR {
        Some(SettlementError::InvalidFeeBps)
    } else if rule.platform_fee_bps < MIN_FEE_BPS || rule.network_fee_bps < MIN_FEE_BPS {
        Some(SettlementError::InvalidFeeBps)
    } else if rule.platform_fee_bps + rule.network_fee_bps > BPS_DENOMINATOR {
        Some(SettlementError::InvalidFeeBps)
    } else if rule.settlement_delay_ledger > MAX_SETTLEMENT_DELAY_LEDGER {
        Some(SettlementError::InvalidSettlementDelay)
    } else {
        None
    }
}

/// Why a global default rule is refused, if it is: the same bounds as a
/// merchant rule, the sum of the two rates included.
pub open spec fn default_rule_error(rule: SettlementRule) -> Option<SettlementError> {
    if rule.platform_fee_bps > BPS_DENOMINATOR || rule.network_fee_bps > BPS_DENOMINATOR {
        Some(SettlementError::InvalidFeeBps)
    } else if rule.platform_fee_bps < MIN_FEE_BPS || rule.network_fee_bps < MIN_FEE_BPS {
        Some(SettlementError::InvalidFeeBps)
    } else if rule.platform_fee_bps + rule.network_fee_bps > BPS_DENOMINATOR {
        Some(SettlementError::InvalidFeeBps)
    } else if rule.settlement_delay_ledger > MAX_SETTLEMENT_DELAY_LEDGER {
        Some(SettlementError::InvalidSettlementDelay)
    } else {
        None
    }
}

/// The record stored for a payment of `amount` under `rule` at ledger `ledger`.
pub open spec fn spec_payment_record(amount: i128, rule: SettlementRule, ledger: u32) -> PaymentRecord {
    let split = spec_split(amount, rule);
    PaymentRecord {
        amount,
        platform_fee_amount: split.platform_fee_amount,
        network_fee_amount: split.network_fee_amount,
        merchant_amount: split.merchant_amount,
        platform_fee_bps: rule.platform_fee_bps,
        network_fee_bps: rule.network_fee_bps,
        ledger,
        settlement_delay_ledger: rule.settlement_delay_ledger,
        auto_settle: rule.auto_settle,
    }
}

/// The rule derived from a governance fee configuration.
pub open spec fn rule_from_fee_config(cfg: FeeConfig) -> SettlementRule {
    SettlementRule {
        platform_fee_bps: cfg.platform_fee_bps,
        network_fee_bps: cfg.network_fee_bps,
        settlement_delay_ledger: 0,
        auto_settle: false,
    }
}

/// The records found for `refs`, in their order, missing ones left out.
pub open spec fn found_payments(payments: Map<BytesN32, PaymentRecord>, refs: Seq<BytesN32>) -> Seq<
    PaymentRecord,
>
    decreases refs.len(),
{
    if refs.len() == 0 {
        Seq::empty()
    } else {
        let prefix = found_payments(payments, refs.drop_last());
        if payments.contains_key(refs.last()) {
            prefix.push(payments[refs.last()])
        } else {
            prefix
        }
    }
}

/// Why a set of admin signatures does not authorize an admin action, if it
/// does not: too few signers, a signer outside the admin set, a signer
/// listed twice, or a signer that has not authorized the call.
pub open spec fn admin_auth_error(
    c: ContractModel,
    e: EnvModel,
    signers: Seq<Address>,
    required_count: u32,
) -> Option<SettlementError> {
    if !c.initialized() {
        Some(SettlementError::NotInitialized)
    } else if signers.len() < required_count {
        Some(SettlementError::Unauthorized)
    } else if !(forall|i: int| 0 <= i < signers.len() ==> c.admins.contains(#[trigger] signers[i])) {
        Some(SettlementError::Unauthorized)
    } else if !(forall|i: int, j: int|
        0 <= i < j < signers.len() ==> #[trigger] signers[i] != #[trigger] signers[j]) {
        Some(SettlementError::Unauthorized)
    } else if !(forall|i: int| 0 <= i < signers.len() ==> e.authorizes(#[trigger] signers[i])) {
        Some(SettlementError::Unauthorized)
    } else {
        None
    }
}

/// The first problem with the admin entries from index `i` on: a zero
/// address, or an address that appears again later.
pub open spec fn admin_entries_error(admins: Seq<Address>, i: int) -> Option<SettlementError>
    decreases admins.len() - i,
{
    if i < 0 || i >= admins.len() {
        None
    } else if admins[i].spec_is_zero() {
        Some(SettlementError::ZeroAddress)
    } else if exists|j: int| i < j < admins.len() && admins[j] == admins[i] {
        Some(SettlementError::InvalidAdmin)
    } else {
        admin_entries_error(admins, i + 1)
    }
}

/// Why an admin set with its signature threshold is refused, if it is.
pub open spec fn admin_set_error(admins: Seq<Address>, threshold: u32) -> Option<SettlementError> {
    if threshold == 0 || threshold > admins.len() {
        Some(SettlementError::InvalidThreshold)
    } else if admins.len() == 0 {
        Some(SettlementError::InvalidAdmin)
    } else {
        admin_entries_error(admins, 0)
    }
}

/// Why `rule` breaks a ceiling that governance has configured, if it does.
pub open spec fn governance_ceiling_error(c: ContractModel, e: EnvModel, rule: SettlementRule) -> Option<
    SettlementError,
> {
    match c.governance {
        None => Some(SettlementError::NotInitialized),
        Some(g) => {
            if !e.is_governance(g) {
                Some(SettlementError::GovernanceCallFailed)
            } else {
                match e.governance[g].fee {
                    None => None,
                    Some(cfg) => {
                        if rule.platform_fee_bps > cfg.platform_fee_bps {
                            Some(SettlementError::FeeExceedsGovernanceConfig)
                        } else if rule.network_fee_bps > cfg.network_fee_bps {
                            Some(SettlementError::FeeExceedsGovernanceConfig)
                        } else {
                            None
                        }
                    },
                }
            }
        },
    }
}

impl ContractModel {
    pub open spec fn initialized(self) -> bool {
        self.admins.len() > 0
    }

    pub open spec fn admin(self) -> Address {
        self.admins[0]
    }

    /// The admin check of an entry point: not initialized, or (when the entry
    /// point asks for it) the admin has not authorized the call.
    pub open spec fn admin_error(self, e: EnvModel, check_auth: bool) -> Option<SettlementError> {
        if !self.initialized() {
            Some(SettlementError::NotInitialized)
        } else if check_auth && !e.authorizes(self.admin()) {
            Some(SettlementError::Unauthorized)
        } else {
            None
        }
    }

    /// The rule published by the configured governance contract, if any.
    pub open spec fn governance_rule(self, e: EnvModel) -> Option<SettlementRule> {
        match self.governance {
            Some(g) => match e.fee_config_at(g) {
                Some(cfg) => Some(rule_from_fee_config(cfg)),
                None => None,
            },
            None => None,
        }
    }

    /// Whether neither a merchant rule, nor a global default, nor governance
    /// gives a rule for `merchant`, so that the bootstrap rule applies.
    pub open spec fn uses_bootstrap(self, e: EnvModel, merchant: Address) -> bool {
        &&& !self.rules.contains_key(merchant)
        &&& self.default_rule is None
        &&& self.governance_rule(e) is None
    }

    /// The rule that applies to `merchant`: its own rule, else the global
    /// default, else the governance fee configuration, else the bootstrap rule.
    pub open spec fn effective_rule(self, e: EnvModel, merchant: Address) -> SettlementRule {
        if self.rules.contains_key(merchant) {
            self.rules[merchant]
        } else if self.default_rule is Some {
            self.default_rule->Some_0
        } else if self.governance_rule(e) is Some {
            self.governance_rule(e)->Some_0
        } else {
            spec_bootstrap_default_rule()
        }
    }

    /// The `bootstrap_fallback` event that resolving `merchant`'s rule publishes.
    pub open spec fn fallback_events(self, e: EnvModel, merchant: Address) -> Seq<ContractEvent> {
        if self.uses_bootstrap(e, merchant) {
            seq![ContractEvent::BootstrapFallback { rule: spec_bootstrap_default_rule() }]
        } else {
            Seq::empty()
        }
    }

    /// Whether `g` is acceptable as the governance contract.
    pub open spec fn governance_valid(e: EnvModel, g: Address) -> bool {
        !g.spec_is_zero() && e.is_governance(g)
    }
}

/// A freshly deployed, uninitialized contract at `address`.
pub open spec fn fresh_contract(address: Address) -> ContractModel {
    ContractModel {
        address,
        admins: Seq::empty(),
        threshold: 0,
        governance: None,
        recovery_address: None,
        pending_recovery: None,
        paused: false,
        merchants: Set::empty(),
        rules: Map::empty(),
        default_rule: None,
        payments: Map::empty(),
        scheduled: Map::empty(),
        wasm_hash: None,
    }
}

/// Why `init` refuses its arguments on a contract that is not yet initialized.
pub open spec fn init_error(
    e: EnvModel,
    admin: Address,
    governance: Address,
    recovery_address: Address,
) -> Option<SettlementError> {
    if !e.authorizes(admin) {
        Some(SettlementError::Unauthorized)
    } else if !ContractModel::governance_valid(e, governance) {
        Some(SettlementError::InvalidGovernance)
    } else if recovery_address.spec_is_zero() {
        Some(SettlementError::InvalidRecoveryAddress)
    } else {
        None
    }
}

pub open spec fn spec_init(
    c: ContractModel,
    e: EnvModel,
    admin: Address,
    governance: Address,
    recovery_address: Address,
) -> Result<Step<()>, SettlementError> {
    if c.initialized() {
        fail(SettlementError::AlreadyInitialized)
    } else if init_error(e, admin, governance, recovery_address) is Some {
        fail(init_error(e, admin, governance, recovery_address)->Some_0)
    } else {
        done(
            ContractModel {
                admins: seq![admin],
                threshold: 1,
                governance: Some(governance),
                recovery_address: Some(recovery_address),
                ..c
            },
            Seq::empty(),
            (),
        )
    }
}

pub open spec fn spec_update_governance(c: ContractModel, e: EnvModel, new_governance: Address) -> Result<
    Step<()>,
    SettlementError,
> {
    if c.admin_error(e, true) is Some {
        fail(c.admin_error(e, true)->Some_0)
    } else if c.paused {
        fail(SettlementError::Paused)
    } else if !ContractModel::governance_valid(e, new_governance) {
        fail(SettlementError::InvalidGovernance)
    } else {
        done(
            ContractModel { governance: Some(new_governance), ..c },
            seq![ContractEvent::GovernanceUpdated { admin: c.admin(), new_governance }],
            (),
        )
    }
}

pub open spec fn spec_initiate_recovery(c: ContractModel, e: EnvModel, new_admin: Address) -> Result<
    Step<()>,
    SettlementError,
> {
    match c.recovery_address {
        None => fail(SettlementError::NotInitialized),
        Some(recovery) => {
            if !e.authorizes(recovery) {
                fail(SettlementError::Unauthorized)
            } else if new_admin.spec_is_zero() {
                fail(SettlementError::InvalidAdmin)
            } else {
                let execute_after = (e.timestamp + RECOVERY_DELAY_SECONDS) as u64;
                done(
                    ContractModel {
                        pending_recovery: Some(PendingRecovery { new_admin, execute_after }),
                        ..c
                    },
                    seq![
                        ContractEvent::RecoveryInitiated {
                            recovery_address: recovery,
                            new_admin,
                            execute_after,
                        },
                    ],
                    (),
                )
            }
        },
    }
}

pub open spec fn spec_cancel_recovery(c: ContractModel, e: EnvModel) -> Result<
    Step<()>,
    SettlementError,
> {
    if c.admin_error(e, true) is Some {
        fail(c.admin_error(e, true)->Some_0)
    } else if c.pending_recovery is None {
        fail(SettlementError::RecoveryNotPending)
    } else {
        done(
            ContractModel { pending_recovery: None, ..c },
            seq![ContractEvent::RecoveryCancelled { admin: c.admin() }],
            (),
        )
    }
}

pub open spec fn spec_execute_recovery(c: ContractModel, e: EnvModel) -> Result<
    Step<()>,
    SettlementError,
> {
    match c.pending_recovery {
        None => fail(SettlementError::RecoveryNotPending),
        Some(pending) => {
            if e.timestamp < pending.execute_after {
                fail(SettlementError::RecoveryDelayActive)
            } else {
                done(
                    ContractModel {
                        admins: seq![pending.new_admin],
                        threshold: 1,
                        pending_recovery: None,
                        ..c
                    },
                    seq![ContractEvent::RecoveryExecuted { new_admin: pending.new_admin }],
                    (),
                )
            }
        },
    }
}

pub open spec fn spec_transfer_admin(c: ContractModel, e: EnvModel, new_admin: Address) -> Result<
    Step<()>,
    SettlementError,
> {
    if c.admin_error(e, true) is Some {
        fail(c.admin_error(e, true)->Some_0)
    } else if new_admin.spec_is_zero() {
        fail(SettlementError::ZeroAddress)
    } else if new_admin == c.admin() {
        fail(SettlementError::InvalidAdmin)
    } else {
        done(
            ContractModel { admins: seq![new_admin], threshold: 1, pending_recovery: None, ..c },
            seq![ContractEvent::AdminTransferred { new_admin }],
            (),
        )
    }
}

pub open spec fn spec_upgrade(c: ContractModel, e: EnvModel, new_wasm_hash: BytesN32, check_auth: bool) -> Result<
    Step<()>,
    SettlementError,
> {
    if c.admin_error(e, check_auth) is Some {
        fail(c.admin_error(e, check_auth)->Some_0)
    } else {
        done(
            ContractModel { wasm_hash: Some(new_wasm_hash), ..c },
            seq![ContractEvent::ContractUpgraded { new_wasm_hash, admin: c.admin() }],
            (),
        )
    }
}

pub open spec fn spec_set_paused(c: ContractModel, e: EnvModel, paused: bool) -> Result<
    Step<()>,
    SettlementError,
> {
    if c.admin_error(e, true) is Some {
        fail(c.admin_error(e, true)->Some_0)
    } else {
        done(
            ContractModel { paused, ..c },
            seq![
                if paused {
                    ContractEvent::Paused { admin: c.admin() }
                } else {
                    ContractEvent::Unpaused { admin: c.admin() }
                },
            ],
            (),
        )
    }
}

pub open spec fn spec_register_merchant(
    c: ContractModel,
    e: EnvModel,
    merchant: Address,
    check_auth: bool,
) -> Result<Step<()>, SettlementError> {
    if c.paused {
        fail(SettlementError::Paused)
    } else if merchant.spec_is_zero() {
        fail(SettlementError::ZeroAddress)
    } else if c.admin_error(e, check_auth) is Some {
        fail(c.admin_error(e, check_auth)->Some_0)
    } else if c.merchants.contains(merchant) {
        fail(SettlementError::MerchantExists)
    } else {
        done(
            ContractModel { merchants: c.merchants.insert(merchant), ..c },
            seq![ContractEvent::MerchantRegistered { merchant, admin: c.admin() }],
            (),
        )
    }
}

pub open spec fn spec_unregister_merchant(
    c: ContractModel,
    e: EnvModel,
    merchant: Address,
    check_auth: bool,
) -> Result<Step<()>, SettlementError> {
    if c.paused {
        fail(SettlementError::Paused)
    } else if c.admin_error(e, check_auth) is Some {
        fail(c.admin_error(e, check_auth)->Some_0)
    } else if !c.merchants.contains(merchant) {
        fail(SettlementError::MerchantMissing)
    } else {
        let rule_events = if c.rules.contains_key(merchant) {
            seq![
                ContractEvent::SettlementRuleRemoved {
                    merchant,
                    admin: c.admin(),
                    removed: c.rules[merchant],
                },
            ]
        } else {
            Seq::empty()
        };
        done(
            ContractModel {
                merchants: c.merchants.remove(merchant),
                rules: c.rules.remove(merchant),
                ..c
            },
            rule_events.push(ContractEvent::MerchantUnregistered { merchant, admin: c.admin() }),
            (),
        )
    }
}

pub open spec fn spec_set_settlement_rule(
    c: ContractModel,
    e: EnvModel,
    merchant: Address,
    rule: SettlementRule,
    check_auth: bool,
) -> Result<Step<()>, SettlementError> {
    if c.paused {
        fail(SettlementError::Paused)
    } else if c.admin_error(e, check_auth) is Some {
        fail(c.admin_error(e, check_auth)->Some_0)
    } else if !c.merchants.contains(merchant) {
        fail(SettlementError::MerchantMissing)
    } else if rule_error(rule) is Some {
        fail(rule_error(rule)->Some_0)
    } else {
        done(
            ContractModel { rules: c.rules.insert(merchant, rule), ..c },
            seq![
                ContractEvent::SettlementRuleUpdated {
                    merchant,
                    admin: c.admin(),
                    previous: c.effective_rule(e, merchant),
                    current: rule,
                },
            ],
            (),
        )
    }
}

pub open spec fn spec_clear_settlement_rule(
    c: ContractModel,
    e: EnvModel,
    merchant: Address,
    check_auth: bool,
) -> Result<Step<()>, SettlementError> {
    if c.paused {
        fail(SettlementError::Paused)
    } else if c.admin_error(e, check_auth) is Some {
        fail(c.admin_error(e, check_auth)->Some_0)
    } else if !c.rules.contains_key(merchant) {
        fail(SettlementError::MerchantRuleNotSet)
    } else {
        let cleared = ContractModel { rules: c.rules.remove(merchant), ..c };
        done(
            cleared,
            cleared.fallback_events(e, merchant).push(
                ContractEvent::SettlementRuleCleared {
                    merchant,
                    admin: c.admin(),
                    removed: c.rules[merchant],
                    fallback: cleared.effective_rule(e, merchant),
                },
            ),
            (),
        )
    }
}

pub open spec fn spec_set_default_rule(
    c: ContractModel,
    e: EnvModel,
    rule: SettlementRule,
    check_auth: bool,
) -> Result<Step<()>, SettlementError> {
    if c.paused {
        fail(SettlementError::Paused)
    } else if c.admin_error(e, check_auth) is Some {
        fail(c.admin_error(e, check_auth)->Some_0)
    } else if default_rule_error(rule) is Some {
        fail(default_rule_error(rule)->Some_0)
    } else {
        let previous = match c.default_rule {
            Some(r) => r,
            None => spec_bootstrap_default_rule(),
        };
        done(
            ContractModel { default_rule: Some(rule), ..c },
            seq![ContractEvent::DefaultRuleUpdated { admin: c.admin(), previous, current: rule }],
            (),
        )
    }
}

pub open spec fn spec_store_payment_reference(
    c: ContractModel,
    e: EnvModel,
    merchant: Address,
    reference: BytesN32,
    amount: i128,
) -> Result<Step<FeeSplit>, SettlementError> {
    if c.paused {
        fail(SettlementError::Paused)
    } else if !c.merchants.contains(merchant) {
        fail(SettlementError::MerchantMissing)
    } else if !e.authorizes(merchant) {
        fail(SettlementError::Unauthorized)
    } else if reference.spec_is_zero() {
        fail(SettlementError::InvalidPaymentReference)
    } else if amount < MIN_PAYMENT_AMOUNT {
        fail(SettlementError::AmountTooSmall)
    } else if c.payments.contains_key(reference) {
        fail(SettlementError::DuplicatePaymentReference)
    } else if split_would_overflow(amount, c.effective_rule(e, merchant)) {
        fail(SettlementError::AmountOverflow)
    } else {
        let rule = c.effective_rule(e, merchant);
        done(
            ContractModel {
                payments: c.payments.insert(reference, spec_payment_record(amount, rule, e.sequence)),
                ..c
            },
            c.fallback_events(e, merchant).push(ContractEvent::PaymentStored { merchant, reference }),
            spec_split(amount, rule),
        )
    }
}

pub open spec fn spec_calculate_fee_split(
    c: ContractModel,
    e: EnvModel,
    merchant: Address,
    amount: i128,
) -> Result<Step<FeeSplit>, SettlementError> {
    if !c.merchants.contains(merchant) {
        fail(SettlementError::MerchantMissing)
    } else if amount == 0 {
        fail(SettlementError::AmountZero)
    } else if amount < 0 {
        fail(SettlementError::AmountNegative)
    } else if split_would_overflow(amount, c.effective_rule(e, merchant)) {
        fail(SettlementError::AmountOverflow)
    } else {
        done(
            c,
            c.fallback_events(e, merchant),
            spec_split(amount, c.effective_rule(e, merchant)),
        )
    }
}

pub open spec fn spec_schedule(
    c: ContractModel,
    e: EnvModel,
    caller: Address,
    operation: Operation,
    execute_in: u64,
) -> Result<Step<()>, SettlementError> {
    if !c.initialized() {
        fail(SettlementError::NotInitialized)
    } else if caller != c.admin() || !e.authorizes(caller) {
        fail(SettlementError::Unauthorized)
    } else if execute_in < DEFAULT_TIMELOCK_DELAY_SECONDS {
        fail(SettlementError::ExecutionNotReady)
    } else if c.scheduled.contains_key(operation) {
        fail(SettlementError::OperationAlreadyScheduled)
    } else {
        let execute_at = (e.timestamp + execute_in) as u64;
        done(
            ContractModel { scheduled: c.scheduled.insert(operation, execute_at), ..c },
            seq![ContractEvent::OperationScheduled { operation, caller, execute_at }],
            (),
        )
    }
}

/// What a scheduled operation does when the timelock releases it.
pub open spec fn spec_apply_operation(c: ContractModel, e: EnvModel, operation: Operation) -> Result<
    Step<()>,
    SettlementError,
> {
    match operation {
        Operation::UpdateGovernance(g) => {
            if c.paused {
                fail(SettlementError::Paused)
            } else if !ContractModel::governance_valid(e, g) {
                fail(SettlementError::InvalidGovernance)
            } else if !c.initialized() {
                fail(SettlementError::NotInitialized)
            } else {
                done(
                    ContractModel { governance: Some(g), ..c },
                    seq![ContractEvent::GovernanceUpdated { admin: c.admin(), new_governance: g }],
                    (),
                )
            }
        },
        Operation::CancelRecovery => spec_cancel_recovery(c, e),
        Operation::TransferAdmin(new_admin) => {
            if !c.initialized() {
                fail(SettlementError::NotInitialized)
            } else if new_admin.spec_is_zero() {
                fail(SettlementError::ZeroAddress)
            } else if new_admin == c.admin() {
                fail(SettlementError::InvalidAdmin)
            } else {
                done(
                    ContractModel { admins: seq![new_admin], threshold: 1, ..c },
                    seq![ContractEvent::AdminTransferred { new_admin }],
                    (),
                )
            }
        },
        Operation::Upgrade(h) => spec_upgrade(c, e, h, false),
        Operation::RegisterMerchant(m) => spec_register_merchant(c, e, m, false),
        Operation::UnregisterMerchant(m) => spec_unregister_merchant(c, e, m, false),
        Operation::SetSettlementRule(m, rule) => spec_set_settlement_rule(c, e, m, rule, false),
        Operation::ClearSettlementRule(m) => spec_clear_settlement_rule(c, e, m, false),
        Operation::SetDefaultRule(rule) => spec_set_default_rule(c, e, rule, false),
    }
}

pub open spec fn spec_execute(c: ContractModel, e: EnvModel, operation: Operation) -> Result<
    Step<()>,
    SettlementError,
> {
    if !c.scheduled.contains_key(operation) {
        fail(SettlementError::OperationNotScheduled)
    } else if e.timestamp < c.scheduled[operation] {
        fail(SettlementError::ExecutionNotReady)
    } else {
        let released = ContractModel { scheduled: c.scheduled.remove(operation), ..c };
        match spec_apply_operation(released, e, operation) {
            Err(err) => fail(err),
            Ok(step) => done(
                step.state,
                step.events.push(ContractEvent::OperationExecuted { operation }),
                (),
            ),
        }
    }
}

pub open spec fn spec_cancel(c: ContractModel, e: EnvModel, caller: Address, operation: Operation) -> Result<
    Step<()>,
    SettlementError,
> {
    if !c.initialized() {
        fail(SettlementError::NotInitialized)
    } else if caller != c.admin() || !e.authorizes(caller) {
        fail(SettlementError::Unauthorized)
    } else if !c.scheduled.contains_key(operation) {
        fail(SettlementError::OperationNotScheduled)
    } else {
        done(
            ContractModel { scheduled: c.scheduled.remove(operation), ..c },
            seq![ContractEvent::OperationCancelled { operation, caller }],
            (),
        )
    }
}

} // verus!
