//! The settlement contract: its state and its entry points. Every entry point
//! either succeeds as its model in `crate::model` says, or answers with the
//! error the model names and leaves the contract and the host untouched.

use vstd::prelude::*;

use crate::address::{validate_nonzero_address, Address, BytesN32, KeyEq};
use crate::assoc::{list_to_map, AssocList};
use crate::address::AddressKind;
use crate::env::{generated_key, lemma_emit_nothing, lemma_emit_twice, Env, EnvModel};
use crate::errors::{CommonDataKey, SettlementError};
use crate::events::ContractEvent;
use crate::fees::calculate_split;
use crate::model::{
    applies, default_rule_error, rule_error, spec_cancel, spec_cancel_recovery,
    spec_calculate_fee_split, spec_clear_settlement_rule, spec_execute, spec_execute_recovery,
    spec_init, spec_initiate_recovery, spec_register_merchant, spec_schedule, spec_set_default_rule,
    spec_set_paused, spec_set_settlement_rule, spec_store_payment_reference, spec_transfer_admin,
    spec_unregister_merchant, spec_update_governance, spec_upgrade, ContractModel,
    spec_apply_operation, found_payments, spec_payment_record, admin_auth_error,
    admin_entries_error, admin_set_error, governance_ceiling_error, fresh_contract, init_error,
};
use crate::types::{
    bootstrap_default_rule, FeeSplit, Operation, PaymentRecord,
    PendingRecovery, SettlementRule, BPS_DENOMINATOR, DEFAULT_TIMELOCK_DELAY_SECONDS,
    MAX_SETTLEMENT_DELAY_LEDGER, MIN_FEE_BPS, MIN_PAYMENT_AMOUNT, RECOVERY_DELAY_SECONDS,
};

verus! {

pub struct SettlementContract {
    address: Address,
    admins: Vec<Address>,
    threshold: u32,
    governance: Option<Address>,
    recovery_address: Option<Address>,
    pending_recovery: Option<PendingRecovery>,
    paused: bool,
    merchants: AssocList<Address, ()>,
    rules: AssocList<Address, SettlementRule>,
    default_rule: Option<SettlementRule>,
    payments: AssocList<BytesN32, PaymentRecord>,
    scheduled: AssocList<Operation, u64>,
    wasm_hash: Option<BytesN32>,
}

/// The whole state of a contract as plain lists, for persisting it and
/// loading it again.
#[derive(Clone, Debug, PartialEq, Eq)]
pub struct ContractSnapshot {
    pub address: Address,
    pub admins: Vec<Address>,
    pub threshold: u32,
    pub governance: Option<Address>,
    pub recovery_address: Option<Address>,
    pub pending_recovery: Option<PendingRecovery>,
    pub paused: bool,
    pub merchants: Vec<(Address, ())>,
    pub rules: Vec<(Address, SettlementRule)>,
    pub default_rule: Option<SettlementRule>,
    pub payments: Vec<(BytesN32, PaymentRecord)>,
    pub scheduled: Vec<(Operation, u64)>,
    pub wasm_hash: Option<BytesN32>,
}

impl ContractSnapshot {
    /// The contract state that the snapshot describes; in each list a later
    /// pair overrides an earlier one with the same key.
    pub open spec fn model(&self) -> ContractModel {
        ContractModel {
            address: self.address,
            admins: self.admins@,
            threshold: self.threshold,
            governance: self.governance,
            recovery_address: self.recovery_address,
            pending_recovery: self.pending_recovery,
            paused: self.paused,
            merchants: list_to_map(self.merchants@).dom(),
            rules: list_to_map(self.rules@),
            default_rule: self.default_rule,
            payments: list_to_map(self.payments@),
            scheduled: list_to_map(self.scheduled@),
            wasm_hash: self.wasm_hash,
        }
    }
}

impl View for SettlementContract {
    type V = ContractModel;

    closed spec fn view(&self) -> ContractModel {
        ContractModel {
            address: self.address,
            admins: self.admins@,
            threshold: self.threshold,
            governance: self.governance,
            recovery_address: self.recovery_address,
            pending_recovery: self.pending_recovery,
            paused: self.paused,
            merchants: self.merchants@.dom(),
            rules: self.rules@,
            default_rule: self.default_rule,
            payments: self.payments@,
            scheduled: self.scheduled@,
            wasm_hash: self.wasm_hash,
        }
    }
}

impl SettlementContract {
    /// A freshly deployed, uninitialized contract at `address`.
    pub fn new(address: Address) -> (r: SettlementContract)
        ensures
            r@ == fresh_contract(address),
    {
        let merchants = AssocList::new();
        let r = SettlementContract {
            address,
            admins: Vec::new(),
            threshold: 0,
            governance: None,
            recovery_address: None,
            pending_recovery: None,
            paused: false,
            merchants,
            rules: AssocList::new(),
            default_rule: None,
            payments: AssocList::new(),
            scheduled: AssocList::new(),
            wasm_hash: None,
        };
        assert(r@ =~= fresh_contract(address));
        r
    }

    /// The contract's whole state, for persisting.
    pub fn snapshot(&self) -> (r: ContractSnapshot)
        ensures
            r.model() == self@,
    {
        let r = ContractSnapshot {
            address: self.address,
            admins: self.admins.clone(),
            threshold: self.threshold,
            governance: self.governance,
            recovery_address: self.recovery_address,
            pending_recovery: self.pending_recovery,
            paused: self.paused,
            merchants: self.merchants.to_vec(),
            rules: self.rules.to_vec(),
            default_rule: self.default_rule,
            payments: self.payments.to_vec(),
            scheduled: self.scheduled.to_vec(),
            wasm_hash: self.wasm_hash,
        };
        proof {
            assert(r.model() =~= self@);
        }
        r
    }

    /// The contract whose state `snapshot` describes.
    pub fn from_snapshot(snapshot: &ContractSnapshot) -> (r: SettlementContract)
        ensures
            r@ == snapshot.model(),
    {
        let r = SettlementContract {
            address: snapshot.address,
            admins: snapshot.admins.clone(),
            threshold: snapshot.threshold,
            governance: snapshot.governance,
            recovery_address: snapshot.recovery_address,
            pending_recovery: snapshot.pending_recovery,
            paused: snapshot.paused,
            merchants: AssocList::from_vec(&snapshot.merchants),
            rules: AssocList::from_vec(&snapshot.rules),
            default_rule: snapshot.default_rule,
            payments: AssocList::from_vec(&snapshot.payments),
            scheduled: AssocList::from_vec(&snapshot.scheduled),
            wasm_hash: snapshot.wasm_hash,
        };
        proof {
            assert(r@ =~= snapshot.model());
        }
        r
    }

    /// The contract's own address.
    pub fn address(&self) -> (r: Address)
        ensures
            r == self@.address,
    {
        self.address
    }

    /// Whether the instance slot `key` holds a value.
    pub fn instance_has(&self, key: CommonDataKey) -> (r: bool)
        ensures
            r == match key {
                CommonDataKey::Admin => self@.initialized(),
                CommonDataKey::RecoveryAddress => self@.recovery_address is Some,
                CommonDataKey::PendingRecovery => self@.pending_recovery is Some,
                CommonDataKey::Paused => self@.paused,
            },
    {
        match key {
            CommonDataKey::Admin => self.admins.len() > 0,
            CommonDataKey::RecoveryAddress => self.recovery_address.is_some(),
            CommonDataKey::PendingRecovery => self.pending_recovery.is_some(),
            CommonDataKey::Paused => self.paused,
        }
    }

    /// The admin, or `NotInitialized`.
    pub fn read_admin(&self) -> (r: Result<Address, SettlementError>)
        ensures
            self@.initialized() ==> r == Ok::<Address, SettlementError>(self@.admin()),
            !self@.initialized() ==> r == Err::<Address, SettlementError>(
                SettlementError::NotInitialized,
            ),
    {
        if self.admins.len() == 0 {
            return Err(SettlementError::NotInitialized);
        }
        Ok(self.admins[0])
    }

    /// The admin, after checking (when asked) that it authorized the call.
    fn checked_admin(&self, env: &Env, check_auth: bool) -> (r: Result<Address, SettlementError>)
        ensures
            match self@.admin_error(env@, check_auth) {
                Some(err) => r == Err::<Address, SettlementError>(err),
                None => r == Ok::<Address, SettlementError>(self@.admin()),
            },
    {
        let admin = self.read_admin()?;
        if check_auth && !env.require_auth(&admin) {
            return Err(SettlementError::Unauthorized);
        }
        Ok(admin)
    }

    /// Refuses with `Paused` while the contract is paused.
    pub fn assert_not_paused(&self) -> (r: Result<(), SettlementError>)
        ensures
            r == (if self@.paused {
                Err::<(), SettlementError>(SettlementError::Paused)
            } else {
                Ok(())
            }),
    {
        if self.paused {
            return Err(SettlementError::Paused);
        }
        Ok(())
    }

    /// Initializes the contract with its admin, governance contract and
    /// recovery address.
    pub fn init(
        &mut self,
        env: &mut Env,
        admin: Address,
        governance: Address,
        recovery_address: Address,
    ) -> (r: Result<(), SettlementError>)
        ensures
            applies(
                spec_init(old(self)@, old(env)@, admin, governance, recovery_address),
                old(self)@,
                old(env)@,
                final(self)@,
                final(env)@,
                r,
            ),
    {
        proof {
            lemma_emit_nothing(env@, self@.address);
        }
        if self.admins.len() > 0 {
            return Err(SettlementError::AlreadyInitialized);
        }
        if !env.require_auth(&admin) {
            return Err(SettlementError::Unauthorized);
        }
        validate_governance(env, &governance)?;
        validate_nonzero_address(
            &recovery_address,
            SettlementError::InvalidRecoveryAddress,
            SettlementError::InvalidRecoveryAddress,
        )?;
        let mut admins: Vec<Address> = Vec::new();
        admins.push(admin);
        self.admins = admins;
        self.threshold = 1;
        self.governance = Some(governance);
        self.recovery_address = Some(recovery_address);
        proof {
            assert(self@ =~= (ContractModel {
                admins: seq![admin],
                threshold: 1,
                governance: Some(governance),
                recovery_address: Some(recovery_address),
                ..old(self)@
            }));
        }
        Ok(())
    }

    /// The current admin.
    pub fn get_admin(&self) -> (r: Result<Address, SettlementError>)
        ensures
            self@.initialized() ==> r == Ok::<Address, SettlementError>(self@.admin()),
            !self@.initialized() ==> r == Err::<Address, SettlementError>(
                SettlementError::NotInitialized,
            ),
    {
        self.read_admin()
    }

    /// The whole admin set.
    pub fn read_admins(&self) -> (r: Result<Vec<Address>, SettlementError>)
        ensures
            self@.initialized() ==> (r matches Ok(v) && v@ == self@.admins),
            !self@.initialized() ==> r == Err::<Vec<Address>, SettlementError>(
                SettlementError::NotInitialized,
            ),
    {
        if self.admins.len() == 0 {
            return Err(SettlementError::NotInitialized);
        }
        Ok(self.admins.clone())
    }

    /// The number of admin signatures that an admin action needs.
    pub fn read_threshold(&self) -> (r: Result<u32, SettlementError>)
        ensures
            self@.initialized() ==> r == Ok::<u32, SettlementError>(self@.threshold),
            !self@.initialized() ==> r == Err::<u32, SettlementError>(
                SettlementError::NotInitialized,
            ),
    {
        if self.admins.len() == 0 {
            return Err(SettlementError::NotInitialized);
        }
        Ok(self.threshold)
    }

    /// The governance contract's address, or `NotInitialized`.
    pub fn read_governance(&self) -> (r: Result<Address, SettlementError>)
        ensures
            r == match self@.governance {
                Some(g) => Ok::<Address, SettlementError>(g),
                None => Err(SettlementError::NotInitialized),
            },
    {
        match self.governance {
            Some(g) => Ok(g),
            None => Err(SettlementError::NotInitialized),
        }
    }

    /// The governance contract's address.
    pub fn get_governance(&self) -> (r: Result<Address, SettlementError>)
        ensures
            r == match self@.governance {
                Some(g) => Ok::<Address, SettlementError>(g),
                None => Err(SettlementError::NotInitialized),
            },
    {
        self.read_governance()
    }

    /// The recovery address, or `NotInitialized`.
    pub fn read_recovery_address(&self) -> (r: Result<Address, SettlementError>)
        ensures
            r == match self@.recovery_address {
                Some(a) => Ok::<Address, SettlementError>(a),
                None => Err(SettlementError::NotInitialized),
            },
    {
        match self.recovery_address {
            Some(a) => Ok(a),
            None => Err(SettlementError::NotInitialized),
        }
    }

    /// The recovery address.
    pub fn get_recovery_address(&self) -> (r: Result<Address, SettlementError>)
        ensures
            r == match self@.recovery_address {
                Some(a) => Ok::<Address, SettlementError>(a),
                None => Err(SettlementError::NotInitialized),
            },
    {
        self.read_recovery_address()
    }

    /// The recovery in progress, or `RecoveryNotPending`.
    pub fn read_pending_recovery(&self) -> (r: Result<PendingRecovery, SettlementError>)
        ensures
            r == match self@.pending_recovery {
                Some(p) => Ok::<PendingRecovery, SettlementError>(p),
                None => Err(SettlementError::RecoveryNotPending),
            },
    {
        match self.pending_recovery {
            Some(p) => Ok(p),
            None => Err(SettlementError::RecoveryNotPending),
        }
    }

    /// The Wasm hash installed by the last upgrade, if any.
    pub fn get_wasm_hash(&self) -> (r: Option<BytesN32>)
        ensures
            r == self@.wasm_hash,
    {
        self.wasm_hash
    }

    /// Points the contract at a new governance contract.
    pub fn update_governance(&mut self, env: &mut Env, new_governance: Address) -> (r: Result<
        (),
        SettlementError,
    >)
        ensures
            applies(
                spec_update_governance(old(self)@, old(env)@, new_governance),
                old(self)@,
                old(env)@,
                final(self)@,
                final(env)@,
                r,
            ),
    {
        let admin = self.checked_admin(env, true)?;
        self.assert_not_paused()?;
        validate_governance(env, &new_governance)?;
        self.governance = Some(new_governance);
        env.publish(self.address, ContractEvent::GovernanceUpdated { admin, new_governance });
        proof {
            assert(self@ =~= (ContractModel { governance: Some(new_governance), ..old(self)@ }));
        }
        Ok(())
    }

    /// Starts a recovery: after `RECOVERY_DELAY_SECONDS`, anyone may make
    /// `new_admin` the admin.
    pub fn initiate_recovery(&mut self, env: &mut Env, new_admin: Address) -> (r: Result<
        (),
        SettlementError,
    >)
        requires
            old(env)@.timestamp + RECOVERY_DELAY_SECONDS <= u64::MAX,
        ensures
            applies(
                spec_initiate_recovery(old(self)@, old(env)@, new_admin),
                old(self)@,
                old(env)@,
                final(self)@,
                final(env)@,
                r,
            ),
    {
        let recovery_address = self.read_recovery_address()?;
        if !env.require_auth(&recovery_address) {
            return Err(SettlementError::Unauthorized);
        }
        validate_nonzero_address(
            &new_admin,
            SettlementError::InvalidAdmin,
            SettlementError::InvalidAdmin,
        )?;
        let execute_after: u64 = env.timestamp() + RECOVERY_DELAY_SECONDS;
        self.pending_recovery = Some(PendingRecovery { new_admin, execute_after });
        env.publish(
            self.address,
            ContractEvent::RecoveryInitiated { recovery_address, new_admin, execute_after },
        );
        proof {
            assert(self@ =~= (ContractModel {
                pending_recovery: Some(PendingRecovery { new_admin, execute_after }),
                ..old(self)@
            }));
        }
        Ok(())
    }

    /// Abandons the pending recovery.
    pub fn cancel_recovery(&mut self, env: &mut Env) -> (r: Result<(), SettlementError>)
        ensures
            applies(
                spec_cancel_recovery(old(self)@, old(env)@),
                old(self)@,
                old(env)@,
                final(self)@,
                final(env)@,
                r,
            ),
    {
        let admin = self.checked_admin(env, true)?;
        self.read_pending_recovery()?;
        self.pending_recovery = None;
        env.publish(self.address, ContractEvent::RecoveryCancelled { admin });
        proof {
            assert(self@ =~= (ContractModel { pending_recovery: None, ..old(self)@ }));
        }
        Ok(())
    }

    /// Completes a pending recovery once its delay has passed.
    pub fn execute_recovery(&mut self, env: &mut Env) -> (r: Result<(), SettlementError>)
        ensures
            applies(
                spec_execute_recovery(old(self)@, old(env)@),
                old(self)@,
                old(env)@,
                final(self)@,
                final(env)@,
                r,
            ),
    {
        let pending = self.read_pending_recovery()?;
        if env.timestamp() < pending.execute_after {
            return Err(SettlementError::RecoveryDelayActive);
        }
        let mut admins: Vec<Address> = Vec::new();
        admins.push(pending.new_admin);
        self.admins = admins;
        self.threshold = 1;
        self.pending_recovery = None;
        env.publish(self.address, ContractEvent::RecoveryExecuted { new_admin: pending.new_admin });
        proof {
            assert(self@ =~= (ContractModel {
                admins: seq![pending.new_admin],
                threshold: 1,
                pending_recovery: None,
                ..old(self)@
            }));
        }
        Ok(())
    }

    /// Hands the admin role to `new_admin` and drops any pending recovery.
    pub fn transfer_admin(&mut self, env: &mut Env, new_admin: Address) -> (r: Result<
        (),
        SettlementError,
    >)
        ensures
            applies(
                spec_transfer_admin(old(self)@, old(env)@, new_admin),
                old(self)@,
                old(env)@,
                final(self)@,
                final(env)@,
                r,
            ),
    {
        let admin = self.checked_admin(env, true)?;
        validate_nonzero_address(
            &new_admin,
            SettlementError::EmptyAddress,
            SettlementError::ZeroAddress,
        )?;
        if new_admin.key_eq(&admin) {
            return Err(SettlementError::InvalidAdmin);
        }
        let mut admins: Vec<Address> = Vec::new();
        admins.push(new_admin);
        self.admins = admins;
        self.threshold = 1;
        self.pending_recovery = None;
        env.publish(self.address, ContractEvent::AdminTransferred { new_admin });
        proof {
            assert(self@ =~= (ContractModel {
                admins: seq![new_admin],
                threshold: 1,
                pending_recovery: None,
                ..old(self)@
            }));
        }
        Ok(())
    }

    fn upgrade_as(&mut self, env: &mut Env, new_wasm_hash: BytesN32, check_auth: bool) -> (r: Result<
        (),
        SettlementError,
    >)
        ensures
            applies(
                spec_upgrade(old(self)@, old(env)@, new_wasm_hash, check_auth),
                old(self)@,
                old(env)@,
                final(self)@,
                final(env)@,
                r,
            ),
    {
        let admin = self.checked_admin(env, check_auth)?;
        env.publish(self.address, ContractEvent::ContractUpgraded { new_wasm_hash, admin });
        self.wasm_hash = Some(new_wasm_hash);
        proof {
            assert(self@ =~= (ContractModel { wasm_hash: Some(new_wasm_hash), ..old(self)@ }));
        }
        Ok(())
    }

    /// Replaces the contract's code with the Wasm of `new_wasm_hash`; the
    /// stored state is kept.
    pub fn upgrade(&mut self, env: &mut Env, new_wasm_hash: BytesN32) -> (r: Result<
        (),
        SettlementError,
    >)
        ensures
            applies(
                spec_upgrade(old(self)@, old(env)@, new_wasm_hash, true),
                old(self)@,
                old(env)@,
                final(self)@,
                final(env)@,
                r,
            ),
    {
        self.upgrade_as(env, new_wasm_hash, true)
    }

    /// Writes the pause flag; `pause` and `unpause` call it once the admin
    /// has authorized them.
    pub fn set_paused(&mut self, paused: bool)
        ensures
            final(self)@ == (ContractModel { paused, ..old(self)@ }),
    {
        self.paused = paused;
        proof {
            assert(self@ =~= (ContractModel { paused, ..old(self)@ }));
        }
    }

    fn set_paused_by_admin(&mut self, env: &mut Env, paused: bool) -> (r: Result<(), SettlementError>)
        ensures
            applies(
                spec_set_paused(old(self)@, old(env)@, paused),
                old(self)@,
                old(env)@,
                final(self)@,
                final(env)@,
                r,
            ),
    {
        let admin = self.checked_admin(env, true)?;
        self.set_paused(paused);
        if paused {
            env.publish(self.address, ContractEvent::Paused { admin });
        } else {
            env.publish(self.address, ContractEvent::Unpaused { admin });
        }
        proof {
            assert(self@ =~= (ContractModel { paused, ..old(self)@ }));
        }
        Ok(())
    }

    /// Pauses the contract; the timelock does not apply.
    pub fn pause(&mut self, env: &mut Env) -> (r: Result<(), SettlementError>)
        ensures
            applies(
                spec_set_paused(old(self)@, old(env)@, true),
                old(self)@,
                old(env)@,
                final(self)@,
                final(env)@,
                r,
            ),
    {
        self.set_paused_by_admin(env, true)
    }

    /// Unpauses the contract; the timelock does not apply.
    pub fn unpause(&mut self, env: &mut Env) -> (r: Result<(), SettlementError>)
        ensures
            applies(
                spec_set_paused(old(self)@, old(env)@, false),
                old(self)@,
                old(env)@,
                final(self)@,
                final(env)@,
                r,
            ),
    {
        self.set_paused_by_admin(env, false)
    }

    /// Whether the contract is paused.
    pub fn is_paused(&self) -> (r: bool)
        ensures
            r == self@.paused,
    {
        self.paused
    }

    /// Whether `merchant` is registered.
    pub fn is_merchant_registered_internal(&self, merchant: &Address) -> (r: bool)
        ensures
            r == self@.merchants.contains(*merchant),
    {
        self.merchants.contains_key(merchant)
    }

    /// Whether `merchant` is registered; refused before `init`.
    pub fn is_merchant_registered(&self, merchant: &Address) -> (r: Result<bool, SettlementError>)
        ensures
            self@.initialized() ==> r == Ok::<bool, SettlementError>(
                self@.merchants.contains(*merchant),
            ),
            !self@.initialized() ==> r == Err::<bool, SettlementError>(
                SettlementError::NotInitialized,
            ),
    {
        if self.admins.len() == 0 {
            return Err(SettlementError::NotInitialized);
        }
        Ok(self.is_merchant_registered_internal(merchant))
    }

    /// The rule published by the configured governance contract: its fee
    /// rates with no settlement delay and no auto-settlement. `None` when no
    /// governance is configured, nothing is deployed there, or it has no
    /// fee configuration.
    pub fn read_governance_fee_rule(&self, env: &Env) -> (r: Option<SettlementRule>)
        ensures
            r == self@.governance_rule(env@),
    {
        let governance = match self.governance {
            Some(g) => g,
            None => {
                return None;
            },
        };
        match env.invoke_get_fee_config(&governance) {
            Some(config) => Some(
                SettlementRule {
                    platform_fee_bps: config.platform_fee_bps,
                    network_fee_bps: config.network_fee_bps,
                    settlement_delay_ledger: 0,
                    auto_settle: false,
                },
            ),
            None => None,
        }
    }

    /// The rule that applies to `merchant`, and whether it is the bootstrap rule.
    fn resolve_rule(&self, env: &Env, merchant: &Address) -> (r: (SettlementRule, bool))
        ensures
            r.0 == self@.effective_rule(env@, *merchant),
            r.1 == self@.uses_bootstrap(env@, *merchant),
    {
        if let Some(rule) = self.rules.get(merchant) {
            return (rule, false);
        }
        if let Some(rule) = self.default_rule {
            return (rule, false);
        }
        if let Some(rule) = self.read_governance_fee_rule(env) {
            return (rule, false);
        }
        (bootstrap_default_rule(), true)
    }

    /// Resolves the rule that applies to `merchant`: its own rule, else the
    /// global default, else the governance fee configuration, else the
    /// bootstrap rule, which is announced with a `bootstrap_fallback` event.
    pub fn read_rule_or_default(&self, env: &mut Env, merchant: &Address) -> (r: SettlementRule)
        ensures
            r == self@.effective_rule(old(env)@, *merchant),
            final(env)@ == old(env)@.emit(
                self@.address,
                self@.fallback_events(old(env)@, *merchant),
            ),
    {
        let (rule, bootstrap) = self.resolve_rule(env, merchant);
        if bootstrap {
            env.publish(self.address, ContractEvent::BootstrapFallback { rule });
        } else {
            proof {
                lemma_emit_nothing(env@, self@.address);
            }
        }
        rule
    }

    fn register_merchant_as(&mut self, env: &mut Env, merchant: Address, check_auth: bool) -> (r: Result<
        (),
        SettlementError,
    >)
        ensures
            applies(
                spec_register_merchant(old(self)@, old(env)@, merchant, check_auth),
                old(self)@,
                old(env)@,
                final(self)@,
                final(env)@,
                r,
            ),
    {
        self.assert_not_paused()?;
        validate_nonzero_address(
            &merchant,
            SettlementError::EmptyAddress,
            SettlementError::ZeroAddress,
        )?;
        let admin = self.checked_admin(env, check_auth)?;
        if self.merchants.contains_key(&merchant) {
            return Err(SettlementError::MerchantExists);
        }
        self.merchants.insert(merchant, ());
        env.publish(self.address, ContractEvent::MerchantRegistered { merchant, admin });
        proof {
            assert(self@ =~= (ContractModel {
                merchants: old(self)@.merchants.insert(merchant),
                ..old(self)@
            }));
        }
        Ok(())
    }

    /// Adds `merchant` to the registry.
    pub fn register_merchant(&mut self, env: &mut Env, merchant: Address) -> (r: Result<
        (),
        SettlementError,
    >)
        ensures
            applies(
                spec_register_merchant(old(self)@, old(env)@, merchant, true),
                old(self)@,
                old(env)@,
                final(self)@,
                final(env)@,
                r,
            ),
    {
        self.register_merchant_as(env, merchant, true)
    }

    fn unregister_merchant_as(&mut self, env: &mut Env, merchant: Address, check_auth: bool) -> (r:
        Result<(), SettlementError>)
        ensures
            applies(
                spec_unregister_merchant(old(self)@, old(env)@, merchant, check_auth),
                old(self)@,
                old(env)@,
                final(self)@,
                final(env)@,
                r,
            ),
    {
        self.assert_not_paused()?;
        let admin = self.checked_admin(env, check_auth)?;
        if !self.merchants.contains_key(&merchant) {
            return Err(SettlementError::MerchantMissing);
        }
        let ghost e0 = env@;
        self.merchants.remove(&merchant);
        let old_rule = self.rules.remove(&merchant);
        match old_rule {
            Some(removed) => {
                env.publish(
                    self.address,
                    ContractEvent::SettlementRuleRemoved { merchant, admin, removed },
                );
            },
            None => {
                proof {
                    lemma_emit_nothing(env@, self@.address);
                }
            },
        }
        let ghost e1 = env@;
        env.publish(self.address, ContractEvent::MerchantUnregistered { merchant, admin });
        proof {
            let rule_events = if old(self)@.rules.contains_key(merchant) {
                seq![
                    ContractEvent::SettlementRuleRemoved {
                        merchant,
                        admin,
                        removed: old(self)@.rules[merchant],
                    },
                ]
            } else {
                Seq::empty()
            };
            let last = seq![ContractEvent::MerchantUnregistered { merchant, admin }];
            lemma_emit_twice(e0, self@.address, rule_events, last);
            assert(rule_events + last =~= rule_events.push(
                ContractEvent::MerchantUnregistered { merchant, admin },
            ));
            assert(self@ =~= (ContractModel {
                merchants: old(self)@.merchants.remove(merchant),
                rules: old(self)@.rules.remove(merchant),
                ..old(self)@
            }));
        }
        Ok(())
    }

    /// Removes `merchant` from the registry together with its rule.
    pub fn unregister_merchant(&mut self, env: &mut Env, merchant: Address) -> (r: Result<
        (),
        SettlementError,
    >)
        ensures
            applies(
                spec_unregister_merchant(old(self)@, old(env)@, merchant, true),
                old(self)@,
                old(env)@,
                final(self)@,
                final(env)@,
                r,
            ),
    {
        self.unregister_merchant_as(env, merchant, true)
    }

    fn set_settlement_rule_as(
        &mut self,
        env: &mut Env,
        merchant: Address,
        rule: SettlementRule,
        check_auth: bool,
    ) -> (r: Result<(), SettlementError>)
        ensures
            applies(
                spec_set_settlement_rule(old(self)@, old(env)@, merchant, rule, check_auth),
                old(self)@,
                old(env)@,
                final(self)@,
                final(env)@,
                r,
            ),
    {
        self.assert_not_paused()?;
        let admin = self.checked_admin(env, check_auth)?;
        if !self.is_merchant_registered_internal(&merchant) {
            return Err(SettlementError::MerchantMissing);
        }
        validate_settlement_rule(&rule)?;
        let (previous, _) = self.resolve_rule(env, &merchant);
        self.rules.insert(merchant, rule);
        env.publish(
            self.address,
            ContractEvent::SettlementRuleUpdated { merchant, admin, previous, current: rule },
        );
        proof {
            assert(self@ =~= (ContractModel {
                rules: old(self)@.rules.insert(merchant, rule),
                ..old(self)@
            }));
        }
        Ok(())
    }

    /// Sets `merchant`'s own settlement rule.
    pub fn set_settlement_rule(&mut self, env: &mut Env, merchant: Address, rule: SettlementRule) -> (r:
        Result<(), SettlementError>)
        ensures
            applies(
                spec_set_settlement_rule(old(self)@, old(env)@, merchant, rule, true),
                old(self)@,
                old(env)@,
                final(self)@,
                final(env)@,
                r,
            ),
    {
        self.set_settlement_rule_as(env, merchant, rule, true)
    }

    fn clear_settlement_rule_as(&mut self, env: &mut Env, merchant: Address, check_auth: bool) -> (r:
        Result<(), SettlementError>)
        ensures
            applies(
                spec_clear_settlement_rule(old(self)@, old(env)@, merchant, check_auth),
                old(self)@,
                old(env)@,
                final(self)@,
                final(env)@,
                r,
            ),
    {
        self.assert_not_paused()?;
        let admin = self.checked_admin(env, check_auth)?;
        let removed = match self.rules.get(&merchant) {
            Some(rule) => rule,
            None => {
                return Err(SettlementError::MerchantRuleNotSet);
            },
        };
        let ghost e0 = env@;
        self.rules.remove(&merchant);
        let ghost cleared = self@;
        proof {
            assert(cleared =~= (ContractModel {
                rules: old(self)@.rules.remove(merchant),
                ..old(self)@
            }));
        }
        let fallback = self.read_rule_or_default(env, &merchant);
        let ghost e1 = env@;
        env.publish(
            self.address,
            ContractEvent::SettlementRuleCleared { merchant, admin, removed, fallback },
        );
        proof {
            let first = cleared.fallback_events(e0, merchant);
            let last = seq![ContractEvent::SettlementRuleCleared { merchant, admin, removed, fallback }];
            lemma_emit_twice(e0, self@.address, first, last);
            assert(first + last =~= first.push(
                ContractEvent::SettlementRuleCleared { merchant, admin, removed, fallback },
            ));
        }
        Ok(())
    }

    /// Removes `merchant`'s own rule; the merchant falls back to the global
    /// default, governance, or the bootstrap rule.
    pub fn clear_settlement_rule(&mut self, env: &mut Env, merchant: Address) -> (r: Result<
        (),
        SettlementError,
    >)
        ensures
            applies(
                spec_clear_settlement_rule(old(self)@, old(env)@, merchant, true),
                old(self)@,
                old(env)@,
                final(self)@,
                final(env)@,
                r,
            ),
    {
        self.clear_settlement_rule_as(env, merchant, true)
    }

    fn set_default_rule_as(&mut self, env: &mut Env, rule: SettlementRule, check_auth: bool) -> (r:
        Result<(), SettlementError>)
        ensures
            applies(
                spec_set_default_rule(old(self)@, old(env)@, rule, check_auth),
                old(self)@,
                old(env)@,
                final(self)@,
                final(env)@,
                r,
            ),
    {
        self.assert_not_paused()?;
        let admin = self.checked_admin(env, check_auth)?;
        validate_default_rule(&rule)?;
        let previous = match self.default_rule {
            Some(r) => r,
            None => bootstrap_default_rule(),
        };
        self.default_rule = Some(rule);
        env.publish(
            self.address,
            ContractEvent::DefaultRuleUpdated { admin, previous, current: rule },
        );
        proof {
            assert(self@ =~= (ContractModel { default_rule: Some(rule), ..old(self)@ }));
        }
        Ok(())
    }

    /// Sets the global default rule, used by merchants without a rule of their own.
    pub fn set_default_rule(&mut self, env: &mut Env, rule: SettlementRule) -> (r: Result<
        (),
        SettlementError,
    >)
        ensures
            applies(
                spec_set_default_rule(old(self)@, old(env)@, rule, true),
                old(self)@,
                old(env)@,
                final(self)@,
                final(env)@,
                r,
            ),
    {
        self.set_default_rule_as(env, rule, true)
    }

    /// The global default rule, if one has been set.
    pub fn get_default_rule(&self) -> (r: Option<SettlementRule>)
        ensures
            r == self@.default_rule,
    {
        self.default_rule
    }

    /// Records a payment of `amount` under `reference` for `merchant`,
    /// splitting it by the merchant's effective rule, and returns the split.
    pub fn store_payment_reference(
        &mut self,
        env: &mut Env,
        merchant: Address,
        reference: BytesN32,
        amount: i128,
    ) -> (r: Result<FeeSplit, SettlementError>)
        ensures
            applies(
                spec_store_payment_reference(old(self)@, old(env)@, merchant, reference, amount),
                old(self)@,
                old(env)@,
                final(self)@,
                final(env)@,
                r,
            ),
    {
        self.assert_not_paused()?;
        if !self.is_merchant_registered_internal(&merchant) {
            return Err(SettlementError::MerchantMissing);
        }
        if !env.require_auth(&merchant) {
            return Err(SettlementError::Unauthorized);
        }
        if reference.is_zero() {
            return Err(SettlementError::InvalidPaymentReference);
        }
        if amount < MIN_PAYMENT_AMOUNT {
            return Err(SettlementError::AmountTooSmall);
        }
        if self.payments.contains_key(&reference) {
            return Err(SettlementError::DuplicatePaymentReference);
        }
        let (resolved, _) = self.resolve_rule(env, &merchant);
        let split = calculate_split(amount, &resolved)?;
        let ghost e0 = env@;
        let rule = self.read_rule_or_default(env, &merchant);
        let record = PaymentRecord {
            amount,
            platform_fee_amount: split.platform_fee_amount,
            network_fee_amount: split.network_fee_amount,
            merchant_amount: split.merchant_amount,
            platform_fee_bps: rule.platform_fee_bps,
            network_fee_bps: rule.network_fee_bps,
            ledger: env.sequence(),
            settlement_delay_ledger: rule.settlement_delay_ledger,
            auto_settle: rule.auto_settle,
        };
        self.payments.insert(reference, record);
        env.publish(self.address, ContractEvent::PaymentStored { merchant, reference });
        proof {
            let first = old(self)@.fallback_events(e0, merchant);
            let last = seq![ContractEvent::PaymentStored { merchant, reference }];
            lemma_emit_twice(e0, self@.address, first, last);
            assert(first + last =~= first.push(ContractEvent::PaymentStored { merchant, reference }));
            assert(record == spec_payment_record(amount, rule, e0.sequence));
            assert(self@ =~= (ContractModel {
                payments: old(self)@.payments.insert(reference, record),
                ..old(self)@
            }));
        }
        Ok(split)
    }

    /// The split that a payment of `amount` by `merchant` would get, without
    /// storing anything.
    pub fn calculate_fee_split(&self, env: &mut Env, merchant: &Address, amount: i128) -> (r: Result<
        FeeSplit,
        SettlementError,
    >)
        ensures
            applies(
                spec_calculate_fee_split(self@, old(env)@, *merchant, amount),
                self@,
                old(env)@,
                self@,
                final(env)@,
                r,
            ),
    {
        if !self.is_merchant_registered_internal(merchant) {
            return Err(SettlementError::MerchantMissing);
        }
        if amount == 0 {
            return Err(SettlementError::AmountZero);
        }
        if amount < 0 {
            return Err(SettlementError::AmountNegative);
        }
        let (resolved, _) = self.resolve_rule(env, merchant);
        let split = calculate_split(amount, &resolved)?;
        self.read_rule_or_default(env, merchant);
        Ok(split)
    }

    /// The record stored under `reference`, if any.
    pub fn get_payment_reference(&self, reference: &BytesN32) -> (r: Option<PaymentRecord>)
        ensures
            r == (if self@.payments.contains_key(*reference) {
                Some(self@.payments[*reference])
            } else {
                None::<PaymentRecord>
            }),
    {
        self.payments.get(reference)
    }

    /// The records stored under `references`, in their order; references
    /// with no record are left out.
    pub fn get_payments(&self, references: &Vec<BytesN32>) -> (r: Vec<PaymentRecord>)
        ensures
            r@ == found_payments(self@.payments, references@),
    {
        let mut payments: Vec<PaymentRecord> = Vec::new();
        let mut i: usize = 0;
        while i < references.len()
            invariant
                i <= references@.len(),
                payments@ == found_payments(self@.payments, references@.take(i as int)),
            decreases references@.len() - i,
        {
            proof {
                assert(references@.take(i + 1).drop_last() =~= references@.take(i as int));
            }
            match self.get_payment_reference(&references[i]) {
                Some(record) => payments.push(record),
                None => {},
            }
            i = i + 1;
        }
        proof {
            assert(references@.take(references@.len() as int) =~= references@);
        }
        payments
    }

    /// Schedules `operation` to become executable `execute_in` seconds from
    /// now; only the admin may schedule.
    pub fn schedule(&mut self, env: &mut Env, caller: Address, operation: Operation, execute_in: u64) -> (r:
        Result<(), SettlementError>)
        requires
            old(env)@.timestamp + execute_in <= u64::MAX,
        ensures
            applies(
                spec_schedule(old(self)@, old(env)@, caller, operation, execute_in),
                old(self)@,
                old(env)@,
                final(self)@,
                final(env)@,
                r,
            ),
    {
        let admin = self.read_admin()?;
        if !caller.key_eq(&admin) {
            return Err(SettlementError::Unauthorized);
        }
        if !env.require_auth(&caller) {
            return Err(SettlementError::Unauthorized);
        }
        if execute_in < DEFAULT_TIMELOCK_DELAY_SECONDS {
            return Err(SettlementError::ExecutionNotReady);
        }
        if self.scheduled.contains_key(&operation) {
            return Err(SettlementError::OperationAlreadyScheduled);
        }
        let execute_at: u64 = env.timestamp() + execute_in;
        self.scheduled.insert(operation, execute_at);
        env.publish(
            self.address,
            ContractEvent::OperationScheduled { operation, caller, execute_at },
        );
        proof {
            assert(self@ =~= (ContractModel {
                scheduled: old(self)@.scheduled.insert(operation, execute_at),
                ..old(self)@
            }));
        }
        Ok(())
    }

    fn apply_operation(&mut self, env: &mut Env, operation: Operation) -> (r: Result<
        (),
        SettlementError,
    >)
        ensures
            applies(
                spec_apply_operation(old(self)@, old(env)@, operation),
                old(self)@,
                old(env)@,
                final(self)@,
                final(env)@,
                r,
            ),
    {
        match operation {
            Operation::UpdateGovernance(new_governance) => {
                self.assert_not_paused()?;
                validate_governance(env, &new_governance)?;
                let admin = self.read_admin()?;
                self.governance = Some(new_governance);
                env.publish(self.address, ContractEvent::GovernanceUpdated { admin, new_governance });
                proof {
                    assert(self@ =~= (ContractModel {
                        governance: Some(new_governance),
                        ..old(self)@
                    }));
                }
                Ok(())
            },
            Operation::CancelRecovery => self.cancel_recovery(env),
            Operation::TransferAdmin(new_admin) => {
                let admin = self.read_admin()?;
                validate_nonzero_address(
                    &new_admin,
                    SettlementError::EmptyAddress,
                    SettlementError::ZeroAddress,
                )?;
                if new_admin.key_eq(&admin) {
                    return Err(SettlementError::InvalidAdmin);
                }
                let mut admins: Vec<Address> = Vec::new();
                admins.push(new_admin);
                self.admins = admins;
                self.threshold = 1;
                env.publish(self.address, ContractEvent::AdminTransferred { new_admin });
                proof {
                    assert(self@ =~= (ContractModel {
                        admins: seq![new_admin],
                        threshold: 1,
                        ..old(self)@
                    }));
                }
                Ok(())
            },
            Operation::Upgrade(new_wasm_hash) => self.upgrade_as(env, new_wasm_hash, false),
            Operation::RegisterMerchant(merchant) => self.register_merchant_as(env, merchant, false),
            Operation::UnregisterMerchant(merchant) => self.unregister_merchant_as(
                env,
                merchant,
                false,
            ),
            Operation::SetSettlementRule(merchant, rule) => self.set_settlement_rule_as(
                env,
                merchant,
                rule,
                false,
            ),
            Operation::ClearSettlementRule(merchant) => self.clear_settlement_rule_as(
                env,
                merchant,
                false,
            ),
            Operation::SetDefaultRule(rule) => self.set_default_rule_as(env, rule, false),
        }
    }

    /// Runs a scheduled operation once its time has come, and unschedules it.
    pub fn execute(&mut self, env: &mut Env, operation: Operation) -> (r: Result<
        (),
        SettlementError,
    >)
        ensures
            applies(
                spec_execute(old(self)@, old(env)@, operation),
                old(self)@,
                old(env)@,
                final(self)@,
                final(env)@,
                r,
            ),
    {
        let execute_at = match self.scheduled.get(&operation) {
            Some(t) => t,
            None => {
                return Err(SettlementError::OperationNotScheduled);
            },
        };
        if env.timestamp() < execute_at {
            return Err(SettlementError::ExecutionNotReady);
        }
        let ghost e0 = env@;
        self.scheduled.remove(&operation);
        let ghost released = self@;
        proof {
            assert(released =~= (ContractModel {
                scheduled: old(self)@.scheduled.remove(operation),
                ..old(self)@
            }));
        }
        match self.apply_operation(env, operation) {
            Err(err) => {
                self.scheduled.insert(operation, execute_at);
                proof {
                    assert(self@.scheduled =~= old(self)@.scheduled);
                    assert(self@ =~= old(self)@);
                }
                return Err(err);
            },
            Ok(()) => {},
        }
        env.publish(self.address, ContractEvent::OperationExecuted { operation });
        proof {
            let step = spec_apply_operation(released, e0, operation)->Ok_0;
            let last = seq![ContractEvent::OperationExecuted { operation }];
            lemma_emit_twice(e0, self@.address, step.events, last);
            assert(step.events + last =~= step.events.push(
                ContractEvent::OperationExecuted { operation },
            ));
        }
        Ok(())
    }

    /// Unschedules `operation` without running it; only the admin may cancel.
    pub fn cancel(&mut self, env: &mut Env, caller: Address, operation: Operation) -> (r: Result<
        (),
        SettlementError,
    >)
        ensures
            applies(
                spec_cancel(old(self)@, old(env)@, caller, operation),
                old(self)@,
                old(env)@,
                final(self)@,
                final(env)@,
                r,
            ),
    {
        let admin = self.read_admin()?;
        if !caller.key_eq(&admin) {
            return Err(SettlementError::Unauthorized);
        }
        if !env.require_auth(&caller) {
            return Err(SettlementError::Unauthorized);
        }
        if !self.scheduled.contains_key(&operation) {
            return Err(SettlementError::OperationNotScheduled);
        }
        self.scheduled.remove(&operation);
        env.publish(self.address, ContractEvent::OperationCancelled { operation, caller });
        proof {
            assert(self@ =~= (ContractModel {
                scheduled: old(self)@.scheduled.remove(operation),
                ..old(self)@
            }));
        }
        Ok(())
    }

    /// The time at which `operation` becomes executable, if it is scheduled.
    pub fn get_scheduled(&self, operation: &Operation) -> (r: Option<u64>)
        ensures
            r == (if self@.scheduled.contains_key(*operation) {
                Some(self@.scheduled[*operation])
            } else {
                None::<u64>
            }),
    {
        self.scheduled.get(operation)
    }

    /// Checks that `signers` authorize an admin action: at least
    /// `required_count` of them, each an admin, none listed twice, and each
    /// having authorized the call.
    pub fn verify_admin_auth(&self, env: &Env, signers: &Vec<Address>, required_count: u32) -> (r:
        Result<(), SettlementError>)
        ensures
            r == match admin_auth_error(self@, env@, signers@, required_count) {
                Some(err) => Err::<(), SettlementError>(err),
                None => Ok(()),
            },
    {
        if self.admins.len() == 0 {
            return Err(SettlementError::NotInitialized);
        }
        if signers.len() < required_count as usize {
            return Err(SettlementError::Unauthorized);
        }
        let mut i: usize = 0;
        while i < signers.len()
            invariant
                self@.initialized(),
                signers@.len() >= required_count,
                i <= signers@.len(),
                forall|a: int| 0 <= a < i ==> self@.admins.contains(#[trigger] signers@[a]),
                forall|a: int, b: int|
                    0 <= a < i && a < b < signers@.len() ==> #[trigger] signers@[a]
                        != #[trigger] signers@[b],
                forall|a: int| 0 <= a < i ==> env@.authorizes(#[trigger] signers@[a]),
            decreases signers@.len() - i,
        {
            let signer = signers[i];
            let mut is_admin = false;
            let mut j: usize = 0;
            while j < self.admins.len() && !is_admin
                invariant
                    j <= self.admins@.len(),
                    self@.admins == self.admins@,
                    !is_admin ==> forall|b: int| 0 <= b < j ==> self.admins@[b] != signer,
                    is_admin ==> self@.admins.contains(signer),
                decreases self.admins@.len() - j,
            {
                if signer.key_eq(&self.admins[j]) {
                    is_admin = true;
                    assert(self@.admins[j as int] == signer);
                }
                j = j + 1;
            }
            if !is_admin {
                proof {
                    assert(!self@.admins.contains(signer));
                    assert(signers@[i as int] == signer);
                    assert(!(forall|a: int|
                        0 <= a < signers@.len() ==> self@.admins.contains(#[trigger] signers@[a])));
                }
                return Err(SettlementError::Unauthorized);
            }
            let mut k: usize = i + 1;
            while k < signers.len()
                invariant
                    self@.initialized(),
                    signers@.len() >= required_count,
                    i < k <= signers@.len(),
                    signer == signers@[i as int],
                    forall|b: int| i < b < k ==> signers@[b] != signer,
                decreases signers@.len() - k,
            {
                if signer.key_eq(&signers[k]) {
                    proof {
                        assert(signers@[i as int] == signers@[k as int]);
                        assert(!(forall|a: int, b: int|
                            0 <= a < b < signers@.len() ==> #[trigger] signers@[a]
                                != #[trigger] signers@[b]));
                    }
                    return Err(SettlementError::Unauthorized);
                }
                k = k + 1;
            }
            if !env.require_auth(&signer) {
                proof {
                    assert(!env@.authorizes(signers@[i as int]));
                }
                return Err(SettlementError::Unauthorized);
            }
            i = i + 1;
        }
        Ok(())
    }

    /// Checks `rule` against the fee ceilings configured in governance. With
    /// no governance configuration there is no ceiling to enforce.
    pub fn validate_fee_against_governance(&self, env: &Env, rule: &SettlementRule) -> (r: Result<
        (),
        SettlementError,
    >)
        ensures
            r == match governance_ceiling_error(self@, env@, *rule) {
                Some(err) => Err::<(), SettlementError>(err),
                None => Ok(()),
            },
    {
        let governance = match self.governance {
            Some(g) => g,
            None => {
                return Err(SettlementError::NotInitialized);
            },
        };
        if !env.is_governance(&governance) {
            return Err(SettlementError::GovernanceCallFailed);
        }
        let config = match env.invoke_get_fee_config(&governance) {
            Some(c) => c,
            None => {
                return Ok(());
            },
        };
        if rule.platform_fee_bps > config.platform_fee_bps {
            return Err(SettlementError::FeeExceedsGovernanceConfig);
        }
        if rule.network_fee_bps > config.network_fee_bps {
            return Err(SettlementError::FeeExceedsGovernanceConfig);
        }
        Ok(())
    }

    /// `merchant`'s own rule, if one has been set.
    pub fn get_settlement_rule(&self, merchant: &Address) -> (r: Option<SettlementRule>)
        ensures
            r == (if self@.rules.contains_key(*merchant) {
                Some(self@.rules[*merchant])
            } else {
                None::<SettlementRule>
            }),
    {
        self.rules.get(merchant)
    }
}

/// Deploys a settlement contract at a fresh contract address and initializes
/// it with `admin`, `governance` and `recovery_address`.
pub fn deploy_settlement(
    env: &mut Env,
    admin: Address,
    governance: Address,
    recovery_address: Address,
) -> (r: Result<SettlementContract, SettlementError>)
    requires
        old(env)@.next_address < u64::MAX,
    ensures
        final(env)@ == (EnvModel { next_address: (old(env)@.next_address + 1) as u64, ..old(env)@ }),
        match r {
            Ok(c) => {
                &&& init_error(final(env)@, admin, governance, recovery_address) is None
                &&& c@.address.kind == AddressKind::Contract
                &&& c@.address.key.bytes@ == generated_key((old(env)@.next_address + 1) as u64)
                &&& c@ == (ContractModel {
                    admins: seq![admin],
                    threshold: 1,
                    governance: Some(governance),
                    recovery_address: Some(recovery_address),
                    ..fresh_contract(c@.address)
                })
            },
            Err(err) => init_error(final(env)@, admin, governance, recovery_address) == Some(err),
        },
{
    let address = env.generate_address(AddressKind::Contract);
    let mut contract = SettlementContract::new(address);
    let ghost e1 = env@;
    match contract.init(env, admin, governance, recovery_address) {
        Ok(()) => {
            proof {
                lemma_emit_nothing(e1, address);
            }
            Ok(contract)
        },
        Err(err) => Err(err),
    }
}

/// Checks an admin set and its signature threshold: the threshold is between
/// one and the number of admins, and every admin is a distinct, non-zero
/// address. The first offending admin decides the error.
pub fn validate_admins_and_threshold(admins: &Vec<Address>, threshold: u32) -> (r: Result<
    (),
    SettlementError,
>)
    ensures
        r == match admin_set_error(admins@, threshold) {
            Some(err) => Err::<(), SettlementError>(err),
            None => Ok(()),
        },
{
    if threshold == 0 || threshold as usize > admins.len() {
        return Err(SettlementError::InvalidThreshold);
    }
    if admins.len() == 0 {
        return Err(SettlementError::InvalidAdmin);
    }
    let mut i: usize = 0;
    while i < admins.len()
        invariant
            0 < threshold <= admins@.len(),
            i <= admins@.len(),
            admin_entries_error(admins@, 0) == admin_entries_error(admins@, i as int),
        decreases admins@.len() - i,
    {
        let admin = admins[i];
        match validate_nonzero_address(
            &admin,
            SettlementError::EmptyAddress,
            SettlementError::ZeroAddress,
        ) {
            Err(err) => {
                proof {
                    assert(admin_entries_error(admins@, i as int) == Some(
                        SettlementError::ZeroAddress,
                    ));
                }
                return Err(err);
            },
            Ok(()) => {},
        }
        let mut j: usize = i + 1;
        while j < admins.len()
            invariant
                0 < threshold <= admins@.len(),
                i < j <= admins@.len(),
                admin == admins@[i as int],
                !admin.spec_is_zero(),
                admin_entries_error(admins@, 0) == admin_entries_error(admins@, i as int),
                forall|b: int| i < b < j ==> admins@[b] != admin,
            decreases admins@.len() - j,
        {
            if admin.key_eq(&admins[j]) {
                proof {
                    assert(admins@[j as int] == admins@[i as int]);
                    assert(admin_entries_error(admins@, i as int) == Some(
                        SettlementError::InvalidAdmin,
                    ));
                }
                return Err(SettlementError::InvalidAdmin);
            }
            j = j + 1;
        }
        proof {
            assert(admin_entries_error(admins@, i as int) == admin_entries_error(
                admins@,
                i + 1,
            ));
        }
        i = i + 1;
    }
    proof {
        assert(admin_entries_error(admins@, i as int) == None::<SettlementError>);
    }
    Ok(())
}

/// Accepts a merchant rule whose rates are each between `MIN_FEE_BPS` and
/// `BPS_DENOMINATOR`, add up to at most `BPS_DENOMINATOR`, and whose delay is
/// at most `MAX_SETTLEMENT_DELAY_LEDGER`.
pub fn validate_settlement_rule(rule: &SettlementRule) -> (r: Result<(), SettlementError>)
    ensures
        r == match rule_error(*rule) {
            Some(err) => Err::<(), SettlementError>(err),
            None => Ok(()),
        },
{
    if rule.platform_fee_bps > BPS_DENOMINATOR || rule.network_fee_bps > BPS_DENOMINATOR {
        return Err(SettlementError::InvalidFeeBps);
    }
    if rule.platform_fee_bps < MIN_FEE_BPS || rule.network_fee_bps < MIN_FEE_BPS {
        return Err(SettlementError::InvalidFeeBps);
    }
    if rule.platform_fee_bps + rule.network_fee_bps > BPS_DENOMINATOR {
        return Err(SettlementError::InvalidFeeBps);
    }
    if rule.settlement_delay_ledger > MAX_SETTLEMENT_DELAY_LEDGER {
        return Err(SettlementError::InvalidSettlementDelay);
    }
    Ok(())
}

/// Accepts a global default rule whose rates are each between `MIN_FEE_BPS`
/// and `BPS_DENOMINATOR`, add up to at most `BPS_DENOMINATOR`, and whose
/// delay is at most `MAX_SETTLEMENT_DELAY_LEDGER`.
pub fn validate_default_rule(rule: &SettlementRule) -> (r: Result<(), SettlementError>)
    ensures
        r == match default_rule_error(*rule) {
            Some(err) => Err::<(), SettlementError>(err),
            None => Ok(()),
        },
{
    if rule.platform_fee_bps > BPS_DENOMINATOR || rule.network_fee_bps > BPS_DENOMINATOR {
        return Err(SettlementError::InvalidFeeBps);
    }
    if rule.platform_fee_bps < MIN_FEE_BPS || rule.network_fee_bps < MIN_FEE_BPS {
        return Err(SettlementError::InvalidFeeBps);
    }
    if rule.platform_fee_bps + rule.network_fee_bps > BPS_DENOMINATOR {
        return Err(SettlementError::InvalidFeeBps);
    }
    if rule.settlement_delay_ledger > MAX_SETTLEMENT_DELAY_LEDGER {
        return Err(SettlementError::InvalidSettlementDelay);
    }
    Ok(())
}

/// Accepts `governance` only if it is not the zero address and a governance
/// contract answering `get_fee_config` is deployed there.
pub fn validate_governance(env: &Env, governance: &Address) -> (r: Result<(), SettlementError>)
    ensures
        r == (if ContractModel::governance_valid(env@, *governance) {
            Ok(())
        } else {
            Err::<(), SettlementError>(SettlementError::InvalidGovernance)
        }),
{
    validate_nonzero_address(
        governance,
        SettlementError::InvalidGovernance,
        SettlementError::InvalidGovernance,
    )?;
    if !env.is_governance(governance) {
        return Err(SettlementError::InvalidGovernance);
    }
    Ok(())
}

} // verus!
