//! What each call does to the contract, stated field by field: what it
//! writes, and that it leaves everything else alone.

use vstd::prelude::*;

use crate::address::{Address, BytesN32};
use crate::env::EnvModel;
use crate::errors::SettlementError;
use crate::laws::{call_outcome, Call};
use crate::model::{found_payments, spec_calculate_fee_split, spec_execute, spec_schedule, Step};
use crate::types::{FeeSplit, Operation, PaymentRecord, DEFAULT_TIMELOCK_DELAY_SECONDS};

verus! {

/// A successful schedule releases the operation exactly `execute_in` seconds
/// after the call: `execute` is refused with `ExecutionNotReady` at any time
/// before that, and nothing but the schedule entry of that operation changes.
pub proof fn lemma_schedule_release_time(
    c: crate::model::ContractModel,
    e: EnvModel,
    caller: Address,
    operation: Operation,
    execute_in: u64,
    later: EnvModel,
    other: Operation,
)
    requires
        spec_schedule(c, e, caller, operation, execute_in) is Ok,
        e.timestamp + execute_in <= u64::MAX,
    ensures
        ({
            let s = spec_schedule(c, e, caller, operation, execute_in)->Ok_0.state;
            &&& execute_in >= DEFAULT_TIMELOCK_DELAY_SECONDS
            &&& !c.scheduled.contains_key(operation)
            &&& s.scheduled.contains_key(operation)
            &&& s.scheduled[operation] == e.timestamp + execute_in
            &&& (later.timestamp < e.timestamp + execute_in ==> spec_execute(s, later, operation)
                == Err::<Step<()>, SettlementError>(SettlementError::ExecutionNotReady))
            &&& (other != operation ==> s.scheduled.contains_key(other) == c.scheduled.contains_key(
                other,
            ) && s.scheduled[other] == c.scheduled[other])
            &&& (crate::model::ContractModel { scheduled: c.scheduled, ..s }) == c
        }),
{
    let s = spec_schedule(c, e, caller, operation, execute_in)->Ok_0.state;
    assert((crate::model::ContractModel { scheduled: c.scheduled, ..s }) =~= c);
}

/// What a released operation does: it runs only once its time has come, it
/// is no longer scheduled afterwards, and its change is in the state.
pub proof fn lemma_execute_effect(c: crate::model::ContractModel, e: EnvModel, operation: Operation)
    requires
        spec_execute(c, e, operation) is Ok,
    ensures
        ({
            let s = spec_execute(c, e, operation)->Ok_0.state;
            &&& c.scheduled.contains_key(operation)
            &&& e.timestamp >= c.scheduled[operation]
            &&& !s.scheduled.contains_key(operation)
            &&& match operation {
                Operation::UpdateGovernance(g) => s.governance == Some(g),
                Operation::CancelRecovery => s.pending_recovery is None,
                Operation::TransferAdmin(a) => s.admins == seq![a] && s.admin() == a,
                Operation::Upgrade(h) => s.wasm_hash == Some(h),
                Operation::RegisterMerchant(m) => s.merchants == c.merchants.insert(m)
                    && !c.merchants.contains(m),
                Operation::UnregisterMerchant(m) => s.merchants == c.merchants.remove(m)
                    && s.rules == c.rules.remove(m) && c.merchants.contains(m),
                Operation::SetSettlementRule(m, r) => s.rules == c.rules.insert(m, r),
                Operation::ClearSettlementRule(m) => s.rules == c.rules.remove(m)
                    && c.rules.contains_key(m),
                Operation::SetDefaultRule(r) => s.default_rule == Some(r),
            }
            &&& s.payments == c.payments
        }),
{
}

/// What each successful direct call writes.
pub proof fn lemma_call_effect(c: crate::model::ContractModel, e: EnvModel, call: Call)
    requires
        call_outcome(c, e, call) is Ok,
    ensures
        ({
            let s = call_outcome(c, e, call)->Ok_0.0;
            match call {
                Call::Init(a, g, r) => s.admins == seq![a] && s.governance == Some(g)
                    && s.recovery_address == Some(r) && !c.initialized(),
                Call::UpdateGovernance(g) => s.governance == Some(g),
                Call::InitiateRecovery(a) => s.pending_recovery matches Some(p) && p.new_admin == a,
                Call::CancelRecovery => s.pending_recovery is None && c.pending_recovery is Some,
                Call::ExecuteRecovery => c.pending_recovery matches Some(p) && s.admins == seq![
                    p.new_admin,
                ] && e.timestamp >= p.execute_after && s.pending_recovery is None,
                Call::TransferAdmin(a) => s.admins == seq![a] && s.pending_recovery is None,
                Call::Upgrade(h) => s.wasm_hash == Some(h),
                Call::SetPaused(p) => s.paused == p,
                Call::RegisterMerchant(m) => s.merchants == c.merchants.insert(m)
                    && !c.merchants.contains(m),
                Call::UnregisterMerchant(m) => s.merchants == c.merchants.remove(m) && s.rules
                    == c.rules.remove(m) && c.merchants.contains(m),
                Call::SetSettlementRule(m, r) => s.rules == c.rules.insert(m, r),
                Call::ClearSettlementRule(m) => s.rules == c.rules.remove(m) && c.rules.contains_key(
                    m,
                ),
                Call::SetDefaultRule(r) => s.default_rule == Some(r),
                Call::StorePaymentReference(_, reference, _) => s.payments.dom()
                    == c.payments.dom().insert(reference) && !c.payments.contains_key(reference),
                Call::CalculateFeeSplit(_, _) => s == c,
                Call::Schedule(_, op, _) => s.scheduled.dom() == c.scheduled.dom().insert(op)
                    && !c.scheduled.contains_key(op),
                Call::Execute(op) => !s.scheduled.contains_key(op),
                Call::Cancel(_, op) => s.scheduled == c.scheduled.remove(op)
                    && c.scheduled.contains_key(op),
            }
        }),
{
}

/// Which calls may write which part of the state: only storing a payment
/// writes payments; only registering, unregistering and running a scheduled
/// operation write the merchant registry; only setting, clearing,
/// unregistering and running a scheduled operation write merchant rules.
#[verifier::spinoff_prover]
#[verifier::rlimit(60)]
pub proof fn lemma_call_frame(c: crate::model::ContractModel, e: EnvModel, call: Call)
    requires
        call_outcome(c, e, call) is Ok,
    ensures
        ({
            let s = call_outcome(c, e, call)->Ok_0.0;
            &&& !(call is StorePaymentReference) ==> s.payments == c.payments
            &&& !(call is RegisterMerchant || call is UnregisterMerchant || call is Execute)
                ==> s.merchants == c.merchants
            &&& !(call is SetSettlementRule || call is ClearSettlementRule
                || call is UnregisterMerchant || call is Execute) ==> s.rules == c.rules
            &&& !(call is SetDefaultRule || call is Execute) ==> s.default_rule == c.default_rule
            &&& !(call is Schedule || call is Execute || call is Cancel) ==> s.scheduled
                == c.scheduled
            &&& s.address == c.address
        }),
{
    match call {
        Call::Init(..) => {},
        Call::UpdateGovernance(..) => {},
        Call::InitiateRecovery(..) => {},
        Call::CancelRecovery => {},
        Call::ExecuteRecovery => {},
        Call::TransferAdmin(..) => {},
        Call::Upgrade(..) => {},
        Call::SetPaused(..) => {},
        Call::RegisterMerchant(..) => {},
        Call::UnregisterMerchant(..) => {},
        Call::SetSettlementRule(..) => {},
        Call::ClearSettlementRule(..) => {},
        Call::SetDefaultRule(..) => {},
        Call::StorePaymentReference(..) => {},
        Call::CalculateFeeSplit(..) => {},
        Call::Schedule(..) => {},
        Call::Execute(..) => {},
        Call::Cancel(..) => {},
    }
}

/// Clearing one merchant's rule, or unregistering one merchant, leaves every
/// other merchant's rule as it was.
pub proof fn lemma_other_rules_kept(
    c: crate::model::ContractModel,
    e: EnvModel,
    call: Call,
    other: Address,
)
    requires
        call_outcome(c, e, call) is Ok,
        match call {
            Call::ClearSettlementRule(m) => m != other,
            Call::UnregisterMerchant(m) => m != other,
            Call::SetSettlementRule(m, _) => m != other,
            _ => false,
        },
    ensures
        ({
            let s = call_outcome(c, e, call)->Ok_0.0;
            &&& s.rules.contains_key(other) == c.rules.contains_key(other)
            &&& s.rules[other] == c.rules[other]
        }),
{
}

proof fn lemma_quotient_bound(a: int, m: int, q: int)
    requires
        0 <= a,
        0 < m,
        a * m <= q,
    ensures
        a <= q / m,
{
    assert(a <= q / m) by (nonlinear_arith)
        requires
            0 <= a,
            0 < m,
            a * m <= q,
    ;
}

proof fn lemma_fee_bounds(amount: int, bps: int)
    requires
        amount > 0,
        bps >= 0,
        amount * bps + 9999 <= 170141183460469231731687303715884105727,
    ensures
        0 <= (amount * bps + 9999) / 10000 <= 17014118346046923173168730371588410,
        amount * bps >= 0,
{
    assert(amount * bps >= 0) by (nonlinear_arith)
        requires
            amount > 0,
            bps >= 0,
    ;
    assert(0 <= (amount * bps + 9999) / 10000 <= 17014118346046923173168730371588410)
        by (nonlinear_arith)
        requires
            0 <= amount * bps + 9999 <= 170141183460469231731687303715884105727,
    ;
}

/// For a registered merchant, a preview of any positive amount whose fees
/// fit in `i128` succeeds: each fee is the amount times its rate in basis
/// points, divided by 10 000 and rounded up, under the rule that applies to
/// the merchant, and the merchant gets the rest. Nothing is stored.
pub proof fn lemma_preview_of_positive_amount(
    c: crate::model::ContractModel,
    e: EnvModel,
    merchant: Address,
    amount: i128,
)
    requires
        c.merchants.contains(merchant),
        amount > 0,
        amount * c.effective_rule(e, merchant).platform_fee_bps + 9999 <= i128::MAX,
        amount * c.effective_rule(e, merchant).network_fee_bps + 9999 <= i128::MAX,
    ensures
        spec_calculate_fee_split(c, e, merchant, amount) is Ok,
        ({
            let rule = c.effective_rule(e, merchant);
            let step = spec_calculate_fee_split(c, e, merchant, amount)->Ok_0;
            let pf = (amount * rule.platform_fee_bps + 9999) / 10000;
            let nf = (amount * rule.network_fee_bps + 9999) / 10000;
            &&& step.output == (FeeSplit {
                gross_amount: amount,
                platform_fee_amount: pf as i128,
                network_fee_amount: nf as i128,
                merchant_amount: (amount - pf - nf) as i128,
            })
            &&& step.output.platform_fee_amount == pf
            &&& step.output.network_fee_amount == nf
            &&& step.output.merchant_amount == amount - pf - nf
            &&& step.state == c
        }),
{
    let rule = c.effective_rule(e, merchant);
    let m = crate::fees::max_fee_bps(rule) as int;
    if m > 0 {
        lemma_quotient_bound(amount as int, m, i128::MAX - 9999);
    }
    lemma_fee_bounds(amount as int, rule.platform_fee_bps as int);
    lemma_fee_bounds(amount as int, rule.network_fee_bps as int);
}

/// A preview is refused only for an unregistered merchant, an amount that is
/// not positive, or fees that do not fit in `i128`.
pub proof fn lemma_preview_refusals(
    c: crate::model::ContractModel,
    e: EnvModel,
    merchant: Address,
    amount: i128,
)
    ensures
        !c.merchants.contains(merchant) ==> spec_calculate_fee_split(c, e, merchant, amount)
            == Err::<Step<FeeSplit>, SettlementError>(SettlementError::MerchantMissing),
        c.merchants.contains(merchant) && amount == 0 ==> spec_calculate_fee_split(
            c,
            e,
            merchant,
            amount,
        ) == Err::<Step<FeeSplit>, SettlementError>(SettlementError::AmountZero),
        c.merchants.contains(merchant) && amount < 0 ==> spec_calculate_fee_split(
            c,
            e,
            merchant,
            amount,
        ) == Err::<Step<FeeSplit>, SettlementError>(SettlementError::AmountNegative),
        spec_calculate_fee_split(c, e, merchant, amount) is Err ==> {
            ||| !c.merchants.contains(merchant)
            ||| amount <= 0
            ||| amount * c.effective_rule(e, merchant).platform_fee_bps + 9999 > i128::MAX
            ||| amount * c.effective_rule(e, merchant).network_fee_bps + 9999 > i128::MAX
        },
{
    if c.merchants.contains(merchant) && amount > 0
        && amount * c.effective_rule(e, merchant).platform_fee_bps + 9999 <= i128::MAX
        && amount * c.effective_rule(e, merchant).network_fee_bps + 9999 <= i128::MAX {
        lemma_preview_of_positive_amount(c, e, merchant, amount);
    }
}

/// A batch read of two batches one after the other answers the first
/// batch's records followed by the second's.
pub proof fn lemma_batch_read_concat(
    payments: Map<BytesN32, PaymentRecord>,
    first: Seq<BytesN32>,
    second: Seq<BytesN32>,
)
    ensures
        found_payments(payments, first + second) == found_payments(payments, first)
            + found_payments(payments, second),
    decreases second.len(),
{
    if second.len() == 0 {
        assert(first + second =~= first);
        assert(found_payments(payments, first) + found_payments(payments, second) =~= found_payments(
            payments,
            first,
        ));
    } else {
        let shorter = second.drop_last();
        lemma_batch_read_concat(payments, first, shorter);
        assert((first + second).drop_last() =~= first + shorter);
        assert((first + second).last() == second.last());
        let x = second.last();
        if payments.contains_key(x) {
            assert(found_payments(payments, first) + found_payments(payments, shorter).push(
                payments[x],
            ) =~= (found_payments(payments, first) + found_payments(payments, shorter)).push(
                payments[x],
            ));
        }
    }
}

/// A batch of one reference answers that reference's record, or nothing
/// when it has none; so a batch answers, in order, the record of each of its
/// references that has one.
pub proof fn lemma_batch_read_single(payments: Map<BytesN32, PaymentRecord>, reference: BytesN32)
    ensures
        found_payments(payments, seq![reference]) == (if payments.contains_key(reference) {
            seq![payments[reference]]
        } else {
            Seq::<PaymentRecord>::empty()
        }),
{
    let one = seq![reference];
    assert(one.len() == 1);
    assert(one.last() == reference);
    assert(one.drop_last() =~= Seq::<BytesN32>::empty());
    assert(found_payments(payments, one.drop_last()) == Seq::<PaymentRecord>::empty());
    if payments.contains_key(reference) {
        assert(Seq::<PaymentRecord>::empty().push(payments[reference]) =~= seq![payments[reference]]);
    }
}

/// Adding a reference at either end of a batch adds its record, if it has
/// one, at that end of the answer.
pub proof fn lemma_batch_read_ends(
    payments: Map<BytesN32, PaymentRecord>,
    refs: Seq<BytesN32>,
    reference: BytesN32,
)
    ensures
        found_payments(payments, refs.push(reference)) == found_payments(payments, refs) + (
        if payments.contains_key(reference) {
            seq![payments[reference]]
        } else {
            Seq::<PaymentRecord>::empty()
        }),
        found_payments(payments, seq![reference] + refs) == (if payments.contains_key(reference) {
            seq![payments[reference]]
        } else {
            Seq::<PaymentRecord>::empty()
        }) + found_payments(payments, refs),
{
    lemma_batch_read_single(payments, reference);
    lemma_batch_read_concat(payments, refs, seq![reference]);
    assert(refs + seq![reference] =~= refs.push(reference));
    lemma_batch_read_concat(payments, seq![reference], refs);
}

} // verus!
