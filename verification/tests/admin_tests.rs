use bettapay_settlement::address::{Address, AddressKind, BytesN32};
use bettapay_settlement::contract::{deploy_settlement, SettlementContract};
use bettapay_settlement::env::{deploy_governance, Env};
use bettapay_settlement::errors::SettlementError;
use bettapay_settlement::events::{ContractEvent, EmittedEvent};
use bettapay_settlement::types::{SettlementRule, RECOVERY_DELAY_SECONDS};

fn admin_setup() -> (Env, SettlementContract, Address, Address) {
    let mut env = Env::new();
    env.mock_all_auths();
    let admin = env.generate_address(AddressKind::Account);
    let merchant = env.generate_address(AddressKind::Account);
    let recovery = env.generate_address(AddressKind::Account);
    let governance = deploy_governance(&mut env, None);
    let client = deploy_settlement(&mut env, admin, governance, recovery).unwrap();
    (env, client, admin, merchant)
}

#[test]
fn emits_event_on_initialization() {
    let mut env = Env::new();
    env.mock_all_auths();
    let admin = env.generate_address(AddressKind::Account);
    let recovery = env.generate_address(AddressKind::Account);
    let governance = deploy_governance(&mut env, None);
    let address = env.generate_address(AddressKind::Contract);
    let mut client = SettlementContract::new(address);
    client.init(&mut env, admin, governance, recovery).unwrap();
    assert_eq!(client.get_admin(), Ok(admin));
    assert_eq!(client.get_governance(), Ok(governance));
}

#[test]
fn rejects_double_initialization() {
    let (mut env, mut client, admin, _) = admin_setup();
    let governance = deploy_governance(&mut env, None);
    let recovery = env.generate_address(AddressKind::Account);
    let r = client.init(&mut env, admin, governance, recovery);
    assert_eq!(r, Err(SettlementError::AlreadyInitialized));
}

#[test]
fn get_admin_panics_before_init() {
    let mut env = Env::new();
    let address = env.generate_address(AddressKind::Contract);
    let client = SettlementContract::new(address);
    let r = client.get_admin();
    assert_eq!(r, Err(SettlementError::NotInitialized));
    assert_eq!(r.unwrap_err().code(), 2);
}

#[test]
fn transfer_admin_updates_admin_address() {
    let (mut env, mut client, admin, _) = admin_setup();
    let new_admin = env.generate_address(AddressKind::Account);
    assert_eq!(client.get_admin(), Ok(admin));
    client.transfer_admin(&mut env, new_admin).unwrap();
    assert_eq!(client.get_admin(), Ok(new_admin));
}

#[test]
fn rejects_zero_address_admin_transfer() {
    let (mut env, mut client, _admin, _merchant) = admin_setup();
    let zero_address = Address::account([0; 32]);
    let r = client.transfer_admin(&mut env, zero_address);
    assert_eq!(r, Err(SettlementError::ZeroAddress));
}

#[test]
fn transfer_admin_rejected_for_non_admin() {
    let mut env = Env::new();
    let admin = env.generate_address(AddressKind::Account);
    let new_admin = env.generate_address(AddressKind::Account);
    let non_admin = env.generate_address(AddressKind::Account);
    env.mock_all_auths();
    let governance = deploy_governance(&mut env, None);
    let recovery = env.generate_address(AddressKind::Account);
    let mut client = deploy_settlement(&mut env, admin, governance, recovery).unwrap();
    env.set_auths(vec![non_admin]);
    let r = client.transfer_admin(&mut env, new_admin);
    assert_eq!(r, Err(SettlementError::Unauthorized));
    assert_eq!(client.get_admin(), Ok(admin));
}

#[test]
fn emits_event_on_admin_transfer() {
    let (mut env, mut client, _admin, _merchant) = admin_setup();
    let new_admin = env.generate_address(AddressKind::Account);
    let before = env.events().len();
    client.transfer_admin(&mut env, new_admin).unwrap();
    let events = env.events();
    assert_eq!(events.len(), before + 1, "exactly one event should be emitted by transfer_admin");
    let event: EmittedEvent = *events.last().unwrap();
    assert_eq!(event.contract, client.address());
    assert_eq!(event.event, ContractEvent::AdminTransferred { new_admin });
}

#[test]
fn pause_flag_changes_state() {
    let (mut env, mut client, _admin, _merchant) = admin_setup();
    assert!(!client.is_paused());
    client.pause(&mut env).unwrap();
    assert!(client.is_paused());
    client.unpause(&mut env).unwrap();
    assert!(!client.is_paused());
}

#[test]
fn pause_rejected_for_non_admin() {
    let mut env = Env::new();
    let admin = env.generate_address(AddressKind::Account);
    let non_admin = env.generate_address(AddressKind::Account);
    let recovery = env.generate_address(AddressKind::Account);
    let governance = deploy_governance(&mut env, None);
    env.set_auths(vec![admin]);
    let mut client = deploy_settlement(&mut env, admin, governance, recovery).unwrap();
    env.set_auths(vec![non_admin]);
    let r = client.pause(&mut env);
    assert_eq!(r, Err(SettlementError::Unauthorized));
    assert!(!client.is_paused());
}

#[test]
fn merchant_registration_blocked_when_paused() {
    let (mut env, mut client, _admin, merchant) = admin_setup();
    client.pause(&mut env).unwrap();
    assert!(client.is_paused());
    let r = client.register_merchant(&mut env, merchant);
    assert_eq!(r, Err(SettlementError::Paused));
    assert_eq!(SettlementError::Paused.code(), 9);
}

#[test]
fn set_settlement_rule_rejected_when_paused() {
    let (mut env, mut client, _admin, merchant) = admin_setup();
    client.pause(&mut env).unwrap();
    assert!(client.is_paused());
    assert!(client.register_merchant(&mut env, merchant).is_err());
    let rule = SettlementRule {
        platform_fee_bps: 250,
        network_fee_bps: 50,
        settlement_delay_ledger: 7,
        auto_settle: true,
    };
    assert!(client.set_settlement_rule(&mut env, merchant, rule).is_err());
}

#[test]
fn set_default_rule_rejected_when_paused() {
    let (mut env, mut client, _admin, _merchant) = admin_setup();
    client.pause(&mut env).unwrap();
    assert!(client.is_paused());
    let rule = SettlementRule {
        platform_fee_bps: 250,
        network_fee_bps: 50,
        settlement_delay_ledger: 7,
        auto_settle: true,
    };
    let r = client.set_default_rule(&mut env, rule);
    assert_eq!(r, Err(SettlementError::Paused));
}

#[test]
fn executes_contract_wasm_upgrade_successfully() {
    let (mut env, mut client, admin, _) = admin_setup();
    let new_wasm_hash = BytesN32::from_array([3; 32]);
    let before = env.events().len();
    client.upgrade(&mut env, new_wasm_hash).unwrap();
    let events = env.events();
    assert!(events.len() > before);
    assert_eq!(
        events.last().unwrap().event,
        ContractEvent::ContractUpgraded { new_wasm_hash, admin }
    );
    assert_eq!(client.get_wasm_hash(), Some(new_wasm_hash));
    assert_eq!(client.get_admin(), Ok(admin));
}

#[test]
fn recovery_executes_after_delay() {
    let mut env = Env::new();
    env.mock_all_auths();
    let admin = env.generate_address(AddressKind::Account);
    let recovery_address = env.generate_address(AddressKind::Account);
    let new_admin = env.generate_address(AddressKind::Account);
    let governance = deploy_governance(&mut env, None);
    let mut client = deploy_settlement(&mut env, admin, governance, recovery_address).unwrap();
    assert_eq!(client.get_recovery_address(), Ok(recovery_address));

    client.initiate_recovery(&mut env, new_admin).unwrap();
    env.set_timestamp(env.timestamp() + RECOVERY_DELAY_SECONDS);
    client.execute_recovery(&mut env).unwrap();
    assert_eq!(client.get_admin(), Ok(new_admin));
}

#[test]
fn update_governance_stores_validated_address() {
    let (mut env, mut client, _admin, _merchant) = admin_setup();
    let new_governance = deploy_governance(&mut env, None);
    client.update_governance(&mut env, new_governance).unwrap();
    assert_eq!(client.get_governance(), Ok(new_governance));
}
