use bettapay_settlement::address::{AddressKind, BytesN32};
use bettapay_settlement::contract::{deploy_settlement, SettlementContract};
use bettapay_settlement::env::{deploy_governance, Env};
use bettapay_settlement::errors::SettlementError;
use bettapay_settlement::types::{FeeConfig, SettlementRule};

#[test]
fn settlement_fee_split_respects_governance_fee_config() {
    let mut env = Env::new();
    env.mock_all_auths();
    let admin = env.generate_address(AddressKind::Account);
    let recovery = env.generate_address(AddressKind::Account);
    let merchant = env.generate_address(AddressKind::Account);
    let config = FeeConfig { platform_fee_bps: 250, network_fee_bps: 50 };
    let gov = deploy_governance(&mut env, Some(config));
    let mut settlement = deploy_settlement(&mut env, admin, gov, recovery).unwrap();

    settlement.register_merchant(&mut env, merchant).unwrap();
    let reference = BytesN32::from_array([7; 32]);
    let amount: i128 = 20_000;
    let split = settlement.store_payment_reference(&mut env, merchant, reference, amount).unwrap();
    assert_eq!(split.gross_amount, amount);
    assert_eq!(split.platform_fee_amount, 500);
    assert_eq!(split.network_fee_amount, 100);
    assert_eq!(split.merchant_amount, 19_400);

    let record = settlement.get_payment_reference(&reference).expect("payment should be stored");
    assert_eq!(record.platform_fee_bps, 250);
    assert_eq!(record.network_fee_bps, 50);
}

#[test]
fn settlement_reflects_updated_governance_fees() {
    let mut env = Env::new();
    env.mock_all_auths();
    let admin = env.generate_address(AddressKind::Account);
    let recovery = env.generate_address(AddressKind::Account);
    let merchant = env.generate_address(AddressKind::Account);
    let gov = deploy_governance(&mut env, Some(FeeConfig { platform_fee_bps: 100, network_fee_bps: 25 }));
    let mut settlement = deploy_settlement(&mut env, admin, gov, recovery).unwrap();
    settlement.register_merchant(&mut env, merchant).unwrap();

    let first = settlement.calculate_fee_split(&mut env, &merchant, 10_000).unwrap();
    assert_eq!(first.platform_fee_amount, 100);
    assert_eq!(first.network_fee_amount, 25);
    assert_eq!(first.merchant_amount, 9_875);

    assert!(env.invoke_set_fee_config(&gov, FeeConfig { platform_fee_bps: 400, network_fee_bps: 100 }));
    let second = settlement.calculate_fee_split(&mut env, &merchant, 10_000).unwrap();
    assert_eq!(second.platform_fee_amount, 400);
    assert_eq!(second.network_fee_amount, 100);
    assert_eq!(second.merchant_amount, 9_500);
}

#[test]
fn settlement_rejects_governance_not_deployed_at_init() {
    let mut env = Env::new();
    env.mock_all_auths();
    let admin = env.generate_address(AddressKind::Account);
    let recovery = env.generate_address(AddressKind::Account);
    let fake_governance = env.generate_address(AddressKind::Account);
    let address = env.generate_address(AddressKind::Contract);
    let mut settlement = SettlementContract::new(address);
    let r = settlement.init(&mut env, admin, fake_governance, recovery);
    assert_eq!(r, Err(SettlementError::InvalidGovernance));
}

#[test]
fn settlement_falls_back_when_governance_has_no_fee_config() {
    let mut env = Env::new();
    env.mock_all_auths();
    let admin = env.generate_address(AddressKind::Account);
    let recovery = env.generate_address(AddressKind::Account);
    let merchant = env.generate_address(AddressKind::Account);
    let gov = deploy_governance(&mut env, None);
    let mut settlement = deploy_settlement(&mut env, admin, gov, recovery).unwrap();
    settlement.register_merchant(&mut env, merchant).unwrap();

    let split = settlement.calculate_fee_split(&mut env, &merchant, 10_000).unwrap();
    assert_eq!(split.platform_fee_amount, 100);
    assert_eq!(split.network_fee_amount, 0);
    assert_eq!(split.merchant_amount, 9_900);
}

#[test]
fn merchant_rule_overrides_governance_fee_config() {
    let mut env = Env::new();
    env.mock_all_auths();
    let admin = env.generate_address(AddressKind::Account);
    let recovery = env.generate_address(AddressKind::Account);
    let merchant = env.generate_address(AddressKind::Account);
    let gov = deploy_governance(&mut env, Some(FeeConfig { platform_fee_bps: 250, network_fee_bps: 50 }));
    let mut settlement = deploy_settlement(&mut env, admin, gov, recovery).unwrap();
    settlement.register_merchant(&mut env, merchant).unwrap();
    settlement
        .set_settlement_rule(
            &mut env,
            merchant,
            SettlementRule {
                platform_fee_bps: 500,
                network_fee_bps: 100,
                settlement_delay_ledger: 0,
                auto_settle: false,
            },
        )
        .unwrap();

    let split = settlement.calculate_fee_split(&mut env, &merchant, 10_000).unwrap();
    assert_eq!(split.platform_fee_amount, 500);
    assert_eq!(split.network_fee_amount, 100);
    assert_eq!(split.merchant_amount, 9_400);
}

#[test]
fn default_rule_overrides_governance_fee_config() {
    let mut env = Env::new();
    env.mock_all_auths();
    let admin = env.generate_address(AddressKind::Account);
    let recovery = env.generate_address(AddressKind::Account);
    let merchant = env.generate_address(AddressKind::Account);
    let gov = deploy_governance(&mut env, Some(FeeConfig { platform_fee_bps: 250, network_fee_bps: 50 }));
    let mut settlement = deploy_settlement(&mut env, admin, gov, recovery).unwrap();
    settlement.register_merchant(&mut env, merchant).unwrap();
    settlement
        .set_default_rule(
            &mut env,
            SettlementRule {
                platform_fee_bps: 175,
                network_fee_bps: 25,
                settlement_delay_ledger: 0,
                auto_settle: false,
            },
        )
        .unwrap();

    let split = settlement.calculate_fee_split(&mut env, &merchant, 10_000).unwrap();
    assert_eq!(split.platform_fee_amount, 175);
    assert_eq!(split.network_fee_amount, 25);
    assert_eq!(split.merchant_amount, 9_800);
}
