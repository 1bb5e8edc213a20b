//! Properties of the contract as a whole, proved over the models of its
//! entry points.

use vstd::prelude::*;

use crate::address::{Address, BytesN32};
use crate::env::EnvModel;
use crate::errors::SettlementError;
use crate::events::ContractEvent;
use crate::fees::spec_split;
use crate::model::{
    found_payments, default_rule_error, fresh_contract, rule_error, spec_apply_operation, spec_calculate_fee_split,
    spec_cancel, spec_cancel_recovery, spec_clear_settlement_rule, spec_execute,
    spec_execute_recovery, spec_init, spec_initiate_recovery, spec_payment_record,
    spec_register_merchant, spec_schedule, spec_set_default_rule, spec_set_paused,
    spec_set_settlement_rule, spec_store_payment_reference, spec_transfer_admin,
    spec_unregister_merchant, spec_update_governance, spec_upgrade, ContractModel, Step,
};
use crate::types::{Operation, PaymentRecord, PendingRecovery, SettlementRule, DEFAULT_TIMELOCK_DELAY_SECONDS, RECOVERY_DELAY_SECONDS};

verus! {

/// A call to one of the contract's state-changing entry points.
pub enum Call {
    Init(Address, Address, Address),
    UpdateGovernance(Address),
    InitiateRecovery(Address),
    CancelRecovery,
    ExecuteRecovery,
    TransferAdmin(Address),
    Upgrade(BytesN32),
    SetPaused(bool),
    RegisterMerchant(Address),
    UnregisterMerchant(Address),
    SetSettlementRule(Address, SettlementRule),
    ClearSettlementRule(Address),
    SetDefaultRule(SettlementRule),
    StorePaymentReference(Address, BytesN32, i128),
    CalculateFeeSplit(Address, i128),
    Schedule(Address, Operation, u64),
    Execute(Operation),
    Cancel(Address, Operation),
}

/// The new state and the published events of a call, or its error.
pub open spec fn strip<T>(o: Result<Step<T>, SettlementError>) -> Result<
    (ContractModel, Seq<ContractEvent>),
    SettlementError,
> {
    match o {
        Ok(step) => Ok((step.state, step.events)),
        Err(err) => Err(err),
    }
}

pub open spec fn call_outcome(c: ContractModel, e: EnvModel, call: Call) -> Result<
    (ContractModel, Seq<ContractEvent>),
    SettlementError,
> {
    match call {
        Call::Init(a, g, r) => strip(spec_init(c, e, a, g, r)),
        Call::UpdateGovernance(g) => strip(spec_update_governance(c, e, g)),
        Call::InitiateRecovery(a) => strip(spec_initiate_recovery(c, e, a)),
        Call::CancelRecovery => strip(spec_cancel_recovery(c, e)),
        Call::ExecuteRecovery => strip(spec_execute_recovery(c, e)),
        Call::TransferAdmin(a) => strip(spec_transfer_admin(c, e, a)),
        Call::Upgrade(h) => strip(spec_upgrade(c, e, h, true)),
        Call::SetPaused(p) => strip(spec_set_paused(c, e, p)),
        Call::RegisterMerchant(m) => strip(spec_register_merchant(c, e, m, true)),
        Call::UnregisterMerchant(m) => strip(spec_unregister_merchant(c, e, m, true)),
        Call::SetSettlementRule(m, r) => strip(spec_set_settlement_rule(c, e, m, r, true)),
        Call::ClearSettlementRule(m) => strip(spec_clear_settlement_rule(c, e, m, true)),
        Call::SetDefaultRule(r) => strip(spec_set_default_rule(c, e, r, true)),
        Call::StorePaymentReference(m, reference, amount) => strip(
            spec_store_payment_reference(c, e, m, reference, amount),
        ),
        Call::CalculateFeeSplit(m, amount) => strip(spec_calculate_fee_split(c, e, m, amount)),
        Call::Schedule(caller, op, execute_in) => strip(spec_schedule(c, e, caller, op, execute_in)),
        Call::Execute(op) => strip(spec_execute(c, e, op)),
        Call::Cancel(caller, op) => strip(spec_cancel(c, e, caller, op)),
    }
}

/// What holds of every reachable contract state: every merchant rule belongs
/// to a registered merchant and respects the fee, fee-sum and delay bounds,
/// so does the global default, and an initialized contract has a
/// signature threshold between one and the size of its admin set.
pub open spec fn contract_inv(c: ContractModel) -> bool {
    &&& forall|m: Address| #[trigger]
        c.rules.contains_key(m) ==> c.merchants.contains(m) && rule_error(c.rules[m]) is None
    &&& (c.default_rule matches Some(r) ==> default_rule_error(r) is None
        && r.platform_fee_bps + r.network_fee_bps <= crate::types::BPS_DENOMINATOR)
    &&& (c.initialized() ==> 1 <= c.threshold <= c.admins.len())
}

/// A freshly deployed contract satisfies the invariant.
pub proof fn lemma_fresh_contract_inv(address: Address)
    ensures
        contract_inv(fresh_contract(address)),
{
}

proof fn lemma_apply_operation_inv(c: ContractModel, e: EnvModel, op: Operation)
    requires
        contract_inv(c),
        spec_apply_operation(c, e, op) is Ok,
    ensures
        contract_inv(spec_apply_operation(c, e, op)->Ok_0.state),
        spec_apply_operation(c, e, op)->Ok_0.state.scheduled == c.scheduled,
{
    let s = spec_apply_operation(c, e, op)->Ok_0.state;
    match op {
        Operation::UnregisterMerchant(m) => {
            assert forall|k: Address| #[trigger] s.rules.contains_key(k) implies s.merchants.contains(k)
                && rule_error(s.rules[k]) is None by {
                assert(c.rules.contains_key(k));
            }
        },
        Operation::SetSettlementRule(m, r) => {
            assert forall|k: Address| #[trigger] s.rules.contains_key(k) implies s.merchants.contains(k)
                && rule_error(s.rules[k]) is None by {
                if k != m {
                    assert(c.rules.contains_key(k));
                }
            }
        },
        Operation::ClearSettlementRule(m) => {
            assert forall|k: Address| #[trigger] s.rules.contains_key(k) implies s.merchants.contains(k)
                && rule_error(s.rules[k]) is None by {
                assert(c.rules.contains_key(k));
            }
        },
        Operation::RegisterMerchant(m) => {
            assert forall|k: Address| #[trigger] s.rules.contains_key(k) implies s.merchants.contains(k)
                && rule_error(s.rules[k]) is None by {
                assert(c.rules.contains_key(k));
            }
        },
        _ => {},
    }
}

/// Every successful call keeps the invariant.
#[verifier::spinoff_prover]
#[verifier::rlimit(60)]
pub proof fn lemma_call_preserves_inv(c: ContractModel, e: EnvModel, call: Call)
    requires
        contract_inv(c),
        call_outcome(c, e, call) is Ok,
    ensures
        contract_inv(call_outcome(c, e, call)->Ok_0.0),
{
    let s = call_outcome(c, e, call)->Ok_0.0;
    match call {
        Call::UnregisterMerchant(m) => {
            assert forall|k: Address| #[trigger] s.rules.contains_key(k) implies s.merchants.contains(k)
                && rule_error(s.rules[k]) is None by {
                assert(c.rules.contains_key(k));
            }
        },
        Call::SetSettlementRule(m, r) => {
            assert forall|k: Address| #[trigger] s.rules.contains_key(k) implies s.merchants.contains(k)
                && rule_error(s.rules[k]) is None by {
                if k != m {
                    assert(c.rules.contains_key(k));
                }
            }
        },
        Call::ClearSettlementRule(m) => {
            assert forall|k: Address| #[trigger] s.rules.contains_key(k) implies s.merchants.contains(k)
                && rule_error(s.rules[k]) is None by {
                assert(c.rules.contains_key(k));
            }
        },
        Call::RegisterMerchant(m) => {
            assert forall|k: Address| #[trigger] s.rules.contains_key(k) implies s.merchants.contains(k)
                && rule_error(s.rules[k]) is None by {
                assert(c.rules.contains_key(k));
            }
        },
        Call::Execute(op) => {
            let released = ContractModel { scheduled: c.scheduled.remove(op), ..c };
            lemma_apply_operation_inv(released, e, op);
        },
        _ => {},
    }
}


/// Whether a call is an admin action: it needs the admin's authorization.
pub open spec fn is_admin_call(call: Call) -> bool {
    match call {
        Call::UpdateGovernance(_) => true,
        Call::CancelRecovery => true,
        Call::TransferAdmin(_) => true,
        Call::Upgrade(_) => true,
        Call::SetPaused(_) => true,
        Call::RegisterMerchant(_) => true,
        Call::UnregisterMerchant(_) => true,
        Call::SetSettlementRule(_, _) => true,
        Call::ClearSettlementRule(_) => true,
        Call::SetDefaultRule(_) => true,
        Call::Schedule(_, _, _) => true,
        Call::Cancel(_, _) => true,
        _ => false,
    }
}

/// An admin action succeeds only on an initialized contract whose admin has
/// authorized the call.
pub proof fn lemma_admin_calls_need_admin(c: ContractModel, e: EnvModel, call: Call)
    requires
        is_admin_call(call),
        call_outcome(c, e, call) is Ok,
    ensures
        c.initialized(),
        e.authorizes(c.admin()),
{
}

/// A payment is stored only with the merchant's own authorization.
pub proof fn lemma_store_needs_merchant(
    c: ContractModel,
    e: EnvModel,
    merchant: Address,
    reference: BytesN32,
    amount: i128,
)
    requires
        spec_store_payment_reference(c, e, merchant, reference, amount) is Ok,
    ensures
        e.authorizes(merchant),
        c.merchants.contains(merchant),
{
}

/// Whether the pause flag blocks a call: payment processing and merchant
/// management.
pub open spec fn is_pausable_call(call: Call) -> bool {
    match call {
        Call::UpdateGovernance(_) => true,
        Call::RegisterMerchant(_) => true,
        Call::UnregisterMerchant(_) => true,
        Call::SetSettlementRule(_, _) => true,
        Call::ClearSettlementRule(_) => true,
        Call::SetDefaultRule(_) => true,
        Call::StorePaymentReference(_, _, _) => true,
        _ => false,
    }
}

/// While the contract is paused, payment processing and merchant management
/// fail; those that do not check the admin first fail with `Paused`.
pub proof fn lemma_paused_blocks(c: ContractModel, e: EnvModel, call: Call)
    requires
        c.paused,
        is_pausable_call(call),
    ensures
        call_outcome(c, e, call) is Err,
        !(call matches Call::UpdateGovernance(_)) ==> call_outcome(c, e, call) == Err::<
            (ContractModel, Seq<ContractEvent>),
            SettlementError,
        >(SettlementError::Paused),
{
}

/// Upgrading, transferring the admin role and the recovery flow keep working
/// while paused: their outcome does not depend on the pause flag.
pub proof fn lemma_pause_spares_admin_recovery(c: ContractModel, e: EnvModel, call: Call, paused: bool)
    requires
        match call {
            Call::Upgrade(_) => true,
            Call::TransferAdmin(_) => true,
            Call::InitiateRecovery(_) => true,
            Call::CancelRecovery => true,
            Call::ExecuteRecovery => true,
            _ => false,
        },
    ensures
        (call_outcome(ContractModel { paused, ..c }, e, call) is Ok) == (call_outcome(c, e, call) is Ok),
        call_outcome(c, e, call) is Err ==> call_outcome(c, e, call) == call_outcome(
            ContractModel { paused, ..c },
            e,
            call,
        ),
{
}

/// After a merchant rule is set, it is the merchant's rule and the rule that
/// applies to it; other merchants' rules are unchanged.
pub proof fn lemma_set_rule_then_read(
    c: ContractModel,
    e: EnvModel,
    merchant: Address,
    rule: SettlementRule,
    other: Address,
)
    requires
        spec_set_settlement_rule(c, e, merchant, rule, true) is Ok,
        other != merchant,
    ensures
        ({
            let s = spec_set_settlement_rule(c, e, merchant, rule, true)->Ok_0.state;
            &&& s.rules.contains_key(merchant)
            &&& s.rules[merchant] == rule
            &&& s.effective_rule(e, merchant) == rule
            &&& s.rules.contains_key(other) == c.rules.contains_key(other)
            &&& s.rules[other] == c.rules[other]
        }),
{
}

/// A merchant's own rule wins over the global default, which wins over the
/// governance configuration, which wins over the bootstrap rule.
pub proof fn lemma_rule_precedence(c: ContractModel, e: EnvModel, merchant: Address)
    ensures
        c.rules.contains_key(merchant) ==> c.effective_rule(e, merchant) == c.rules[merchant],
        !c.rules.contains_key(merchant) && c.default_rule is Some ==> c.effective_rule(e, merchant)
            == c.default_rule->Some_0,
        !c.rules.contains_key(merchant) && c.default_rule is None && c.governance_rule(e) is Some
            ==> c.effective_rule(e, merchant) == c.governance_rule(e)->Some_0,
        c.uses_bootstrap(e, merchant) ==> c.effective_rule(e, merchant)
            == crate::types::spec_bootstrap_default_rule(),
{
}

/// After the global default is set, it applies to every merchant that has
/// no rule of its own.
pub proof fn lemma_default_rule_applies(
    c: ContractModel,
    e: EnvModel,
    rule: SettlementRule,
    merchant: Address,
)
    requires
        spec_set_default_rule(c, e, rule, true) is Ok,
        !c.rules.contains_key(merchant),
    ensures
        spec_set_default_rule(c, e, rule, true)->Ok_0.state.effective_rule(e, merchant) == rule,
{
}

/// Clearing a merchant's rule leaves it with no rule of its own; the rule
/// that then applies is the one the `settlement_rule_cleared` event reports.
pub proof fn lemma_clear_rule_falls_back(c: ContractModel, e: EnvModel, merchant: Address)
    requires
        spec_clear_settlement_rule(c, e, merchant, true) is Ok,
    ensures
        ({
            let step = spec_clear_settlement_rule(c, e, merchant, true)->Ok_0;
            &&& !step.state.rules.contains_key(merchant)
            &&& step.events.last() == ContractEvent::SettlementRuleCleared {
                merchant,
                admin: c.admin(),
                removed: c.rules[merchant],
                fallback: step.state.effective_rule(e, merchant),
            }
        }),
{
}

/// A stored payment can be read back: the record holds the amount, the
/// split that the call returned, and the rule it was made under; no other
/// record changes, and a reference is never written twice.
pub proof fn lemma_store_then_read(
    c: ContractModel,
    e: EnvModel,
    merchant: Address,
    reference: BytesN32,
    amount: i128,
    other: BytesN32,
)
    requires
        spec_store_payment_reference(c, e, merchant, reference, amount) is Ok,
        other != reference,
    ensures
        ({
            let step = spec_store_payment_reference(c, e, merchant, reference, amount)->Ok_0;
            let rule = c.effective_rule(e, merchant);
            let record = step.state.payments[reference];
            &&& !c.payments.contains_key(reference)
            &&& step.state.payments.contains_key(reference)
            &&& record == spec_payment_record(amount, rule, e.sequence)
            &&& record.amount == step.output.gross_amount
            &&& record.platform_fee_amount == step.output.platform_fee_amount
            &&& record.network_fee_amount == step.output.network_fee_amount
            &&& record.merchant_amount == step.output.merchant_amount
            &&& record.platform_fee_bps == rule.platform_fee_bps
            &&& record.network_fee_bps == rule.network_fee_bps
            &&& step.state.payments.contains_key(other) == c.payments.contains_key(other)
            &&& step.state.payments[other] == c.payments[other]
        }),
{
}

/// A reference that already holds a payment is refused; the stored record
/// stays as it was.
pub proof fn lemma_duplicate_reference_refused(
    c: ContractModel,
    e: EnvModel,
    merchant: Address,
    reference: BytesN32,
    amount: i128,
)
    requires
        c.payments.contains_key(reference),
    ensures
        spec_store_payment_reference(c, e, merchant, reference, amount) is Err,
        !c.paused && c.merchants.contains(merchant) && e.authorizes(merchant)
            && !reference.spec_is_zero() && amount >= crate::types::MIN_PAYMENT_AMOUNT
            ==> spec_store_payment_reference(c, e, merchant, reference, amount) == Err::<
            Step<crate::types::FeeSplit>,
            SettlementError,
        >(SettlementError::DuplicatePaymentReference),
{
}

/// `calculate_fee_split` previews exactly the split that
/// `store_payment_reference` then charges, and publishes the same
/// `bootstrap_fallback` event when the bootstrap rule applies.
pub proof fn lemma_preview_matches_store(
    c: ContractModel,
    e: EnvModel,
    merchant: Address,
    reference: BytesN32,
    amount: i128,
)
    requires
        spec_store_payment_reference(c, e, merchant, reference, amount) is Ok,
    ensures
        spec_calculate_fee_split(c, e, merchant, amount) is Ok,
        spec_calculate_fee_split(c, e, merchant, amount)->Ok_0.output
            == spec_store_payment_reference(c, e, merchant, reference, amount)->Ok_0.output,
        spec_calculate_fee_split(c, e, merchant, amount)->Ok_0.events
            == spec_store_payment_reference(c, e, merchant, reference, amount)->Ok_0.events.drop_last(),
        spec_calculate_fee_split(c, e, merchant, amount)->Ok_0.state == c,
{
    let store = spec_store_payment_reference(c, e, merchant, reference, amount)->Ok_0;
    assert(store.events.drop_last() =~= c.fallback_events(e, merchant));
}

/// Unregistering a merchant undoes its registration when no rule was set in
/// between.
pub proof fn lemma_unregister_undoes_register(c: ContractModel, e: EnvModel, merchant: Address)
    requires
        spec_register_merchant(c, e, merchant, true) is Ok,
        !c.rules.contains_key(merchant),
    ensures
        ({
            let registered = spec_register_merchant(c, e, merchant, true)->Ok_0.state;
            &&& spec_unregister_merchant(registered, e, merchant, true) is Ok
            &&& spec_unregister_merchant(registered, e, merchant, true)->Ok_0.state == c
        }),
{
    let registered = spec_register_merchant(c, e, merchant, true)->Ok_0.state;
    let back = spec_unregister_merchant(registered, e, merchant, true)->Ok_0.state;
    assert(back.merchants =~= c.merchants);
    assert(back.rules =~= c.rules);
    assert(back =~= c);
}

/// Unregistering a merchant removes its rule too, so clearing that rule
/// afterwards is refused with `MerchantRuleNotSet`.
pub proof fn lemma_unregister_removes_rule(c: ContractModel, e: EnvModel, merchant: Address)
    requires
        spec_unregister_merchant(c, e, merchant, true) is Ok,
    ensures
        ({
            let s = spec_unregister_merchant(c, e, merchant, true)->Ok_0.state;
            &&& !s.merchants.contains(merchant)
            &&& !s.rules.contains_key(merchant)
            &&& spec_clear_settlement_rule(s, e, merchant, true) == Err::<Step<()>, SettlementError>(
                SettlementError::MerchantRuleNotSet,
            )
        }),
{
}

/// A recovery started at time `t` can be completed by anyone from
/// `t + RECOVERY_DELAY_SECONDS` on, and makes the chosen address the admin;
/// earlier it is refused with `RecoveryDelayActive`.
pub proof fn lemma_recovery_round_trip(c: ContractModel, e: EnvModel, new_admin: Address, later: EnvModel)
    requires
        spec_initiate_recovery(c, e, new_admin) is Ok,
        e.timestamp + RECOVERY_DELAY_SECONDS <= u64::MAX,
    ensures
        ({
            let started = spec_initiate_recovery(c, e, new_admin)->Ok_0.state;
            &&& later.timestamp >= e.timestamp + RECOVERY_DELAY_SECONDS ==> {
                &&& spec_execute_recovery(started, later) is Ok
                &&& spec_execute_recovery(started, later)->Ok_0.state.admin() == new_admin
                &&& spec_execute_recovery(started, later)->Ok_0.state.pending_recovery is None
            }
            &&& later.timestamp < e.timestamp + RECOVERY_DELAY_SECONDS ==> spec_execute_recovery(
                started,
                later,
            ) == Err::<Step<()>, SettlementError>(SettlementError::RecoveryDelayActive)
        }),
{
}

/// Transferring the admin role abandons any pending recovery.
pub proof fn lemma_transfer_admin_drops_recovery(c: ContractModel, e: EnvModel, new_admin: Address)
    requires
        spec_transfer_admin(c, e, new_admin) is Ok,
    ensures
        spec_transfer_admin(c, e, new_admin)->Ok_0.state.pending_recovery is None,
        spec_transfer_admin(c, e, new_admin)->Ok_0.state.admin() == new_admin,
        new_admin != c.admin(),
{
}

/// A scheduled operation runs no earlier than `DEFAULT_TIMELOCK_DELAY_SECONDS`
/// after it was scheduled.
pub proof fn lemma_timelock_delay(
    c: ContractModel,
    e: EnvModel,
    caller: Address,
    operation: Operation,
    execute_in: u64,
    later: EnvModel,
)
    requires
        spec_schedule(c, e, caller, operation, execute_in) is Ok,
        e.timestamp + execute_in <= u64::MAX,
        spec_execute(spec_schedule(c, e, caller, operation, execute_in)->Ok_0.state, later, operation)
            is Ok,
    ensures
        later.timestamp >= e.timestamp + DEFAULT_TIMELOCK_DELAY_SECONDS,
{
}

/// A scheduled operation runs at most once: after it has run, running it
/// again is refused with `OperationNotScheduled`.
pub proof fn lemma_execute_at_most_once(c: ContractModel, e: EnvModel, operation: Operation, later: EnvModel)
    requires
        contract_inv(c),
        spec_execute(c, e, operation) is Ok,
    ensures
        spec_execute(spec_execute(c, e, operation)->Ok_0.state, later, operation) == Err::<
            Step<()>,
            SettlementError,
        >(SettlementError::OperationNotScheduled),
{
    let released = ContractModel { scheduled: c.scheduled.remove(operation), ..c };
    lemma_apply_operation_inv(released, e, operation);
}

/// A cancelled operation can no longer run.
pub proof fn lemma_cancelled_never_runs(
    c: ContractModel,
    e: EnvModel,
    caller: Address,
    operation: Operation,
    later: EnvModel,
)
    requires
        spec_cancel(c, e, caller, operation) is Ok,
    ensures
        spec_execute(spec_cancel(c, e, caller, operation)->Ok_0.state, later, operation) == Err::<
            Step<()>,
            SettlementError,
        >(SettlementError::OperationNotScheduled),
{
}

/// A batch read answers the stored records in the order of the references
/// asked for, skipping references with no record: when every reference has
/// a record, the answer has one record per reference, in order.
pub proof fn lemma_batch_read_in_order(payments: Map<BytesN32, PaymentRecord>, refs: Seq<BytesN32>)
    ensures
        found_payments(payments, refs).len() <= refs.len(),
        (forall|i: int| 0 <= i < refs.len() ==> payments.contains_key(#[trigger] refs[i])) ==> {
            &&& found_payments(payments, refs).len() == refs.len()
            &&& forall|i: int|
                0 <= i < refs.len() ==> #[trigger] found_payments(payments, refs)[i]
                    == payments[refs[i]]
        },
        (forall|i: int| 0 <= i < refs.len() ==> !payments.contains_key(#[trigger] refs[i]))
            ==> found_payments(payments, refs).len() == 0,
    decreases refs.len(),
{
    if refs.len() > 0 {
        let prefix = refs.drop_last();
        lemma_batch_read_in_order(payments, prefix);
        if forall|i: int| 0 <= i < refs.len() ==> payments.contains_key(#[trigger] refs[i]) {
            assert forall|i: int| 0 <= i < prefix.len() implies payments.contains_key(
                #[trigger] prefix[i],
            ) by {
                assert(prefix[i] == refs[i]);
            }
            assert(payments.contains_key(refs[refs.len() - 1]));
            assert forall|i: int| 0 <= i < refs.len() implies #[trigger] found_payments(
                payments,
                refs,
            )[i] == payments[refs[i]] by {
                if i < refs.len() - 1 {
                    assert(prefix[i] == refs[i]);
                }
            }
        }
        if forall|i: int| 0 <= i < refs.len() ==> !payments.contains_key(#[trigger] refs[i]) {
            assert forall|i: int| 0 <= i < prefix.len() implies !payments.contains_key(
                #[trigger] prefix[i],
            ) by {
                assert(prefix[i] == refs[i]);
            }
            assert(!payments.contains_key(refs[refs.len() - 1]));
        }
    }
}

/// An upgrade records the new code hash and changes nothing else: every
/// stored entry survives it.
pub proof fn lemma_upgrade_keeps_state(c: ContractModel, e: EnvModel, new_wasm_hash: BytesN32)
    requires
        spec_upgrade(c, e, new_wasm_hash, true) is Ok,
    ensures
        spec_upgrade(c, e, new_wasm_hash, true)->Ok_0.state == (ContractModel {
            wasm_hash: Some(new_wasm_hash),
            ..c
        }),
        spec_upgrade(c, e, new_wasm_hash, true)->Ok_0.events == seq![
            ContractEvent::ContractUpgraded { new_wasm_hash, admin: c.admin() },
        ],
{
}

/// Whether a call can start, end or drop a pending recovery.
pub open spec fn touches_recovery(call: Call) -> bool {
    match call {
        Call::InitiateRecovery(_) => true,
        Call::CancelRecovery => true,
        Call::ExecuteRecovery => true,
        Call::TransferAdmin(_) => true,
        Call::Execute(Operation::CancelRecovery) => true,
        _ => false,
    }
}

/// The contract after `calls`, the `i`-th made with the host `hosts[i]`; a
/// refused call leaves the contract as it was.
pub open spec fn after_calls(c: ContractModel, hosts: Seq<EnvModel>, calls: Seq<Call>) -> ContractModel
    decreases calls.len(),
{
    if calls.len() == 0 {
        c
    } else {
        let prev = after_calls(c, hosts, calls.drop_last());
        match call_outcome(prev, hosts[calls.len() - 1], calls.last()) {
            Ok(outcome) => outcome.0,
            Err(_) => prev,
        }
    }
}

proof fn lemma_call_keeps_pending_recovery(c: ContractModel, e: EnvModel, call: Call)
    requires
        !touches_recovery(call),
        call_outcome(c, e, call) is Ok,
    ensures
        call_outcome(c, e, call)->Ok_0.0.pending_recovery == c.pending_recovery,
{
}

/// Calls that neither start, end nor drop a recovery leave the pending
/// recovery as it was.
pub proof fn lemma_pending_recovery_survives(c: ContractModel, hosts: Seq<EnvModel>, calls: Seq<Call>)
    requires
        hosts.len() >= calls.len(),
        forall|i: int| 0 <= i < calls.len() ==> !touches_recovery(#[trigger] calls[i]),
    ensures
        after_calls(c, hosts, calls).pending_recovery == c.pending_recovery,
    decreases calls.len(),
{
    if calls.len() > 0 {
        let shorter = calls.drop_last();
        assert forall|i: int| 0 <= i < shorter.len() implies !touches_recovery(#[trigger] shorter[i]) by {
            assert(shorter[i] == calls[i]);
        }
        lemma_pending_recovery_survives(c, hosts, shorter);
        let prev = after_calls(c, hosts, shorter);
        assert(!touches_recovery(calls[calls.len() - 1]));
        if call_outcome(prev, hosts[calls.len() - 1], calls.last()) is Ok {
            lemma_call_keeps_pending_recovery(prev, hosts[calls.len() - 1], calls.last());
        }
    }
}

/// A recovery started for `new_admin` at time `t` is pending, to be executed
/// from `t + RECOVERY_DELAY_SECONDS` on, until a call ends or drops it:
/// reading it back gives that recovery.
pub proof fn lemma_initiate_then_read_pending(
    c: ContractModel,
    e: EnvModel,
    new_admin: Address,
    hosts: Seq<EnvModel>,
    calls: Seq<Call>,
)
    requires
        spec_initiate_recovery(c, e, new_admin) is Ok,
        e.timestamp + RECOVERY_DELAY_SECONDS <= u64::MAX,
        hosts.len() == calls.len(),
        forall|i: int| 0 <= i < calls.len() ==> !touches_recovery(#[trigger] calls[i]),
    ensures
        ({
            let started = spec_initiate_recovery(c, e, new_admin)->Ok_0.state;
            let pending = after_calls(started, hosts, calls).pending_recovery;
            &&& pending is Some
            &&& pending->Some_0.new_admin == new_admin
            &&& pending->Some_0.execute_after == e.timestamp + RECOVERY_DELAY_SECONDS
        }),
{
    let started = spec_initiate_recovery(c, e, new_admin)->Ok_0.state;
    lemma_pending_recovery_survives(started, hosts, calls);
}

} // verus!
