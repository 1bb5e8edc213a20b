use bettapay_settlement::address::{Address, AddressKind};
use bettapay_settlement::contract::{deploy_settlement, SettlementContract};
use bettapay_settlement::env::{deploy_governance, Env};
use bettapay_settlement::errors::SettlementError;
use bettapay_settlement::events::{ContractEvent, EmittedEvent};
use bettapay_settlement::fees::calculate_split;
use bettapay_settlement::types::{
    bootstrap_default_rule, SettlementRule, BPS_DENOMINATOR, MIN_FEE_BPS,
};

fn fee_setup() -> (Env, SettlementContract, Address, Address) {
    let mut env = Env::new();
    env.mock_all_auths();
    let admin = env.generate_address(AddressKind::Account);
    let merchant = env.generate_address(AddressKind::Account);
    let recovery = env.generate_address(AddressKind::Account);
    let governance = deploy_governance(&mut env, None);
    let client = deploy_settlement(&mut env, admin, governance, recovery).unwrap();
    (env, client, admin, merchant)
}

fn rule(platform_fee_bps: u32, network_fee_bps: u32, settlement_delay_ledger: u32, auto_settle: bool) -> SettlementRule {
    SettlementRule { platform_fee_bps, network_fee_bps, settlement_delay_ledger, auto_settle }
}

#[test]
fn calculates_split_without_storing_reference() {
    let (mut env, mut client, _admin, merchant) = fee_setup();
    client.register_merchant(&mut env, merchant).unwrap();
    let split = client.calculate_fee_split(&mut env, &merchant, 50_000).unwrap();
    assert_eq!(split.platform_fee_amount, 500);
    assert_eq!(split.network_fee_amount, 0);
    assert_eq!(split.merchant_amount, 49_500);
}

#[test]
fn bootstrap_default_used_before_any_default_rule_set() {
    let (mut env, mut client, _admin, merchant) = fee_setup();
    client.register_merchant(&mut env, merchant).unwrap();
    let split = client.calculate_fee_split(&mut env, &merchant, 50_000).unwrap();
    assert_eq!(split.platform_fee_amount, 500);
    assert_eq!(split.network_fee_amount, 0);
    assert_eq!(split.merchant_amount, 49_500);
}

#[test]
fn bootstrap_fallback_emits_event_and_matches_bootstrap_rule() {
    let (mut env, mut client, _admin, merchant) = fee_setup();
    client.register_merchant(&mut env, merchant).unwrap();

    let before = env.events().len();
    let split = client.calculate_fee_split(&mut env, &merchant, 50_000).unwrap();
    assert_eq!(split.platform_fee_amount, 500);
    assert_eq!(split.network_fee_amount, 0);
    assert_eq!(split.merchant_amount, 49_500);

    let events = env.events();
    assert!(events.len() > before, "at least one event expected from bootstrap fallback");
    let emitted = events[before..]
        .iter()
        .find_map(|e| match e.event {
            ContractEvent::BootstrapFallback { rule } => Some(rule),
            _ => None,
        })
        .expect("expected bootstrap_fallback event to be emitted");
    assert_eq!(emitted.platform_fee_bps, 100);
    assert_eq!(emitted.network_fee_bps, 0);
    assert_eq!(emitted.settlement_delay_ledger, 0);
    assert!(!emitted.auto_settle);
}

#[test]
fn global_default_used_when_no_explicit_merchant_rule() {
    let (mut env, mut client, _admin, merchant) = fee_setup();
    client.register_merchant(&mut env, merchant).unwrap();
    client.set_default_rule(&mut env, rule(200, 50, 10, true)).unwrap();
    let split = client.calculate_fee_split(&mut env, &merchant, 50_000).unwrap();
    assert_eq!(split.platform_fee_amount, 1_000);
    assert_eq!(split.network_fee_amount, 250);
    assert_eq!(split.merchant_amount, 48_750);
}

#[test]
fn explicit_merchant_rule_overrides_global_default() {
    let (mut env, mut client, _admin, merchant) = fee_setup();
    client.register_merchant(&mut env, merchant).unwrap();
    client.set_default_rule(&mut env, rule(200, 50, 10, true)).unwrap();
    client.set_settlement_rule(&mut env, merchant, rule(175, 25, 42, false)).unwrap();
    let split = client.calculate_fee_split(&mut env, &merchant, 50_000).unwrap();
    assert_eq!(split.platform_fee_amount, 875);
    assert_eq!(split.network_fee_amount, 125);
    assert_eq!(split.merchant_amount, 49_000);
}

#[test]
fn default_fee_split_uses_100_bps() {
    let (mut env, mut client, _admin, merchant) = fee_setup();
    client.register_merchant(&mut env, merchant).unwrap();
    let split = client.calculate_fee_split(&mut env, &merchant, 10_000).unwrap();
    assert_eq!(split.platform_fee_amount, 100);
    assert_eq!(split.network_fee_amount, 0);
    assert_eq!(split.merchant_amount, 9_900);
}

#[test]
fn calculate_fee_split_uses_custom_rule_parameters() {
    let (mut env, mut client, _admin, merchant) = fee_setup();
    client.register_merchant(&mut env, merchant).unwrap();
    client.set_settlement_rule(&mut env, merchant, rule(500, 250, 0, false)).unwrap();
    let split = client.calculate_fee_split(&mut env, &merchant, 100_000).unwrap();
    assert_eq!(split.gross_amount, 100_000);
    assert_eq!(split.platform_fee_amount, 5_000);
    assert_eq!(split.network_fee_amount, 2_500);
    assert_eq!(split.merchant_amount, 92_500);
}

#[test]
fn calculate_fee_split_rejects_amount_that_would_overflow() {
    let (mut env, mut client, _admin, merchant) = fee_setup();
    client.register_merchant(&mut env, merchant).unwrap();
    client.set_settlement_rule(&mut env, merchant, rule(500, 5, 0, false)).unwrap();
    let amount = (i128::MAX - (BPS_DENOMINATOR as i128 - 1)) / 500 + 1;
    let r = client.calculate_fee_split(&mut env, &merchant, amount);
    assert_eq!(r, Err(SettlementError::AmountOverflow));
    assert_eq!(SettlementError::AmountOverflow.code(), 19);
}

#[test]
fn calculate_fee_split_accepts_amount_at_overflow_boundary() {
    let (mut env, mut client, _admin, merchant) = fee_setup();
    client.register_merchant(&mut env, merchant).unwrap();
    client.set_settlement_rule(&mut env, merchant, rule(500, 5, 0, false)).unwrap();
    let amount = (i128::MAX - (BPS_DENOMINATOR as i128 - 1)) / 500;
    let split = client.calculate_fee_split(&mut env, &merchant, amount).unwrap();
    assert_eq!(split.gross_amount, amount);
}

#[test]
fn calculate_fee_split_with_zero_bps_rule_accepts_max_amount() {
    let split = calculate_split(i128::MAX, &rule(0, 0, 0, false)).unwrap();
    assert_eq!(split.gross_amount, i128::MAX);
    assert_eq!(split.platform_fee_amount, 0);
    assert_eq!(split.network_fee_amount, 0);
    assert_eq!(split.merchant_amount, i128::MAX);
}

#[test]
fn calculate_fee_split_overflows_at_i128_max_with_full_bps() {
    let r = calculate_split(i128::MAX, &rule(BPS_DENOMINATOR, 5, 0, false));
    assert_eq!(r, Err(SettlementError::AmountOverflow));
    assert_eq!(r.unwrap_err().code(), 19);
}

#[test]
fn calculate_split_negative_merchant_amount_from_rounding() {
    let split = calculate_split(1, &rule(5_000, 5_000, 0, false)).unwrap();
    assert_eq!(split.gross_amount, 1);
    assert_eq!(split.platform_fee_amount, 1);
    assert_eq!(split.network_fee_amount, 1);
    assert_eq!(split.merchant_amount, -1);
    assert!(split.merchant_amount < 0, "merchant_amount must be negative for this documented rounding edge case");
    assert_eq!(
        split.merchant_amount + split.platform_fee_amount + split.network_fee_amount,
        split.gross_amount
    );
}

#[test]
fn sets_and_reads_settlement_rule() {
    let (mut env, mut client, _admin, merchant) = fee_setup();
    client.register_merchant(&mut env, merchant).unwrap();
    let prev_count = env.events().len();
    client.set_settlement_rule(&mut env, merchant, rule(175, 25, 42, true)).unwrap();
    let got = client.get_settlement_rule(&merchant).expect("expected settlement rule");
    assert_eq!(got.platform_fee_bps, 175);
    assert_eq!(got.network_fee_bps, 25);
    assert_eq!(got.settlement_delay_ledger, 42);
    assert!(got.auto_settle);

    let events = env.events();
    assert_eq!(events.len(), prev_count + 1, "exactly one event emitted");
    match events[prev_count].event {
        ContractEvent::SettlementRuleUpdated { merchant: m, .. } => assert_eq!(m, merchant),
        other => panic!("unexpected event {:?}", other),
    }
}

#[test]
fn emits_structured_event_when_updating_rule() {
    let (mut env, mut client, _admin, merchant) = fee_setup();
    client.register_merchant(&mut env, merchant).unwrap();
    client.set_settlement_rule(&mut env, merchant, rule(100, 5, 10, false)).unwrap();
    let prev_count = env.events().len();
    client.set_settlement_rule(&mut env, merchant, rule(200, 50, 20, true)).unwrap();

    let events = env.events();
    assert_eq!(events.len(), prev_count + 1, "exactly one event emitted");
    match events[prev_count].event {
        ContractEvent::SettlementRuleUpdated { merchant: m, previous, current, .. } => {
            assert_eq!(m, merchant);
            assert_eq!(previous, rule(100, 5, 10, false));
            assert_eq!(current, rule(200, 50, 20, true));
        },
        other => panic!("unexpected event {:?}", other),
    }
    let stored = client.get_settlement_rule(&merchant).expect("expected settlement rule");
    assert_eq!(stored.platform_fee_bps, 200);
    assert_eq!(stored.network_fee_bps, 50);
    assert_eq!(stored.settlement_delay_ledger, 20);
    assert!(stored.auto_settle);
}

#[test]
fn extends_ttl_when_updating_settlement_rule() {
    let (mut env, mut client, _admin, merchant) = fee_setup();
    client.register_merchant(&mut env, merchant).unwrap();
    client.set_settlement_rule(&mut env, merchant, rule(100, 5, 0, false)).unwrap();
    assert!(client.get_settlement_rule(&merchant).is_some());
}

#[test]
fn rejects_invalid_fee_bps() {
    let (mut env, mut client, _admin, merchant) = fee_setup();
    client.register_merchant(&mut env, merchant).unwrap();
    let r = client.set_settlement_rule(&mut env, merchant, rule(10_001, 5, 0, false));
    assert_eq!(r, Err(SettlementError::InvalidFeeBps));
}

#[test]
fn rejects_settlement_rule_below_governance_min_fee() {
    let (mut env, mut client, _admin, merchant) = fee_setup();
    client.register_merchant(&mut env, merchant).unwrap();
    let r = client.set_settlement_rule(&mut env, merchant, rule(4, 5, 0, false));
    assert_eq!(r, Err(SettlementError::InvalidFeeBps));
}

#[test]
fn rejects_fee_sum_exceeding_10000_bps() {
    let (mut env, mut client, _admin, merchant) = fee_setup();
    client.register_merchant(&mut env, merchant).unwrap();
    let r = client.set_settlement_rule(&mut env, merchant, rule(6_000, 5_000, 0, false));
    assert_eq!(r, Err(SettlementError::InvalidFeeBps));
}

#[test]
fn accepts_fee_sum_at_exactly_10000_bps() {
    let (mut env, mut client, _admin, merchant) = fee_setup();
    client.register_merchant(&mut env, merchant).unwrap();
    client.set_settlement_rule(&mut env, merchant, rule(5_000, 5_000, 0, false)).unwrap();
    let stored = client.get_settlement_rule(&merchant).expect("expected settlement rule");
    assert_eq!(stored.platform_fee_bps, 5_000);
    assert_eq!(stored.network_fee_bps, 5_000);
}

#[test]
fn rejects_settlement_delay_above_maximum() {
    let (mut env, mut client, _admin, merchant) = fee_setup();
    client.register_merchant(&mut env, merchant).unwrap();
    let r = client.set_settlement_rule(&mut env, merchant, rule(100, 5, 100_001, false));
    assert_eq!(r, Err(SettlementError::InvalidSettlementDelay));
}

#[test]
fn rejects_settlement_delay_at_u32_max() {
    let (mut env, mut client, _admin, merchant) = fee_setup();
    client.register_merchant(&mut env, merchant).unwrap();
    let r = client.set_settlement_rule(&mut env, merchant, rule(100, 5, u32::MAX, false));
    assert_eq!(r, Err(SettlementError::InvalidSettlementDelay));
}

#[test]
fn accepts_valid_settlement_delay_zero() {
    let (mut env, mut client, _admin, merchant) = fee_setup();
    client.register_merchant(&mut env, merchant).unwrap();
    client.set_settlement_rule(&mut env, merchant, rule(100, 5, 0, false)).unwrap();
    let stored = client.get_settlement_rule(&merchant).expect("expected settlement rule");
    assert_eq!(stored.settlement_delay_ledger, 0);
}

#[test]
fn accepts_valid_settlement_delay_one() {
    let (mut env, mut client, _admin, merchant) = fee_setup();
    client.register_merchant(&mut env, merchant).unwrap();
    client.set_settlement_rule(&mut env, merchant, rule(100, 5, 1, false)).unwrap();
    let stored = client.get_settlement_rule(&merchant).expect("expected settlement rule");
    assert_eq!(stored.settlement_delay_ledger, 1);
}

#[test]
fn accepts_settlement_delay_at_maximum_boundary() {
    let (mut env, mut client, _admin, merchant) = fee_setup();
    client.register_merchant(&mut env, merchant).unwrap();
    client.set_settlement_rule(&mut env, merchant, rule(100, 5, 100_000, false)).unwrap();
    let stored = client.get_settlement_rule(&merchant).expect("expected settlement rule");
    assert_eq!(stored.settlement_delay_ledger, 100_000);
}

#[test]
fn set_settlement_rule_requires_admin_auth() {
    let mut env = Env::new();
    let admin = env.generate_address(AddressKind::Account);
    let non_admin = env.generate_address(AddressKind::Account);
    let merchant = env.generate_address(AddressKind::Account);
    let governance = deploy_governance(&mut env, None);
    let recovery = env.generate_address(AddressKind::Account);
    env.mock_all_auths();
    let mut client = deploy_settlement(&mut env, admin, governance, recovery).unwrap();
    client.register_merchant(&mut env, merchant).unwrap();
    env.set_auths(vec![non_admin]);
    let r = client.set_settlement_rule(&mut env, merchant, rule(100, 5, 0, false));
    assert_eq!(r, Err(SettlementError::Unauthorized));
}

#[test]
fn set_settlement_rule_publishes_event_with_rule_data() {
    let (mut env, mut client, admin, merchant) = fee_setup();
    client.register_merchant(&mut env, merchant).unwrap();
    let before = env.events().len();
    client.set_settlement_rule(&mut env, merchant, rule(300, 75, 5, true)).unwrap();
    let events = env.events();
    assert_eq!(events.len(), before + 1, "exactly one event emitted");
    match events[before].event {
        ContractEvent::SettlementRuleUpdated { merchant: m, admin: caller, current, .. } => {
            assert_eq!(m, merchant);
            assert_eq!(caller, admin);
            assert_eq!(current.platform_fee_bps, 300);
            assert_eq!(current.network_fee_bps, 75);
            assert_eq!(current.settlement_delay_ledger, 5);
            assert!(current.auto_settle);
        },
        other => panic!("unexpected event {:?}", other),
    }
}

#[test]
fn assert_fee_sum_above_10000_bps_panics_with_invalid_fee_bps() {
    let (mut env, mut client, _admin, merchant) = fee_setup();
    client.register_merchant(&mut env, merchant).unwrap();
    let r = client.set_settlement_rule(&mut env, merchant, rule(6_000, 5_000, 0, false));
    assert_eq!(r, Err(SettlementError::InvalidFeeBps));
    assert_eq!(SettlementError::InvalidFeeBps.code(), 6);
}

fn cleared_event(env: &Env, merchant: Address) -> (Address, SettlementRule, SettlementRule) {
    env.events()
        .iter()
        .rev()
        .find_map(|e| match e.event {
            ContractEvent::SettlementRuleCleared { merchant: m, admin, removed, fallback } if m == merchant => {
                Some((admin, removed, fallback))
            },
            _ => None,
        })
        .expect("expected settlement_rule_cleared event")
}

#[test]
fn admin_clears_custom_rule() {
    let (mut env, mut client, admin, merchant) = fee_setup();
    client.register_merchant(&mut env, merchant).unwrap();
    let r = rule(175, 25, 42, true);
    client.set_settlement_rule(&mut env, merchant, r).unwrap();
    client.clear_settlement_rule(&mut env, merchant).unwrap();
    assert!(client.get_settlement_rule(&merchant).is_none());

    let (admin_addr, removed, fallback) = cleared_event(&env, merchant);
    assert_eq!(admin_addr, admin);
    assert_eq!(removed, r);
    assert_eq!(fallback, bootstrap_default_rule());
}

#[test]
fn clearing_rule_falls_back_to_defaults() {
    let (mut env, mut client, _admin, merchant) = fee_setup();
    client.register_merchant(&mut env, merchant).unwrap();
    let r = rule(500, 200, 10, true);
    client.set_settlement_rule(&mut env, merchant, r).unwrap();
    client.clear_settlement_rule(&mut env, merchant).unwrap();

    let split = client.calculate_fee_split(&mut env, &merchant, 50_000).unwrap();
    assert_eq!(split.platform_fee_amount, 500);
    assert_eq!(split.network_fee_amount, 0);
    assert_eq!(split.merchant_amount, 49_500);

    let (_caller, removed, fallback) = cleared_event(&env, merchant);
    assert_eq!(removed, r);
    assert_eq!(fallback, bootstrap_default_rule());
}

#[test]
fn clearing_rule_falls_back_to_global_default() {
    let (mut env, mut client, _admin, merchant) = fee_setup();
    client.register_merchant(&mut env, merchant).unwrap();
    let global_rule = rule(200, 50, 10, true);
    client.set_default_rule(&mut env, global_rule).unwrap();
    let merchant_rule = rule(500, 100, 20, false);
    client.set_settlement_rule(&mut env, merchant, merchant_rule).unwrap();

    let prev_count = env.events().len();
    client.clear_settlement_rule(&mut env, merchant).unwrap();

    let events_after_clear = env.events().len();
    let split = client.calculate_fee_split(&mut env, &merchant, 50_000).unwrap();
    assert_eq!(split.platform_fee_amount, 1_000);
    assert_eq!(split.network_fee_amount, 250);
    assert_eq!(split.merchant_amount, 48_750);

    assert_eq!(events_after_clear, prev_count + 1);
    let event: EmittedEvent = env.events()[prev_count];
    assert_eq!(event.contract, client.address());
    match event.event {
        ContractEvent::SettlementRuleCleared { merchant: m, removed, fallback, .. } => {
            assert_eq!(m, merchant);
            assert_eq!(removed, merchant_rule);
            assert_eq!(fallback, global_rule);
        },
        other => panic!("unexpected event {:?}", other),
    }
}

#[test]
fn clear_settlement_rule_fails_for_non_admin() {
    let mut env = Env::new();
    let admin = env.generate_address(AddressKind::Account);
    let merchant = env.generate_address(AddressKind::Account);
    let governance = deploy_governance(&mut env, None);
    let recovery = env.generate_address(AddressKind::Account);
    env.set_auths(vec![admin]);
    let mut client = deploy_settlement(&mut env, admin, governance, recovery).unwrap();
    client.register_merchant(&mut env, merchant).unwrap();
    env.set_auths(vec![]);
    let r = client.clear_settlement_rule(&mut env, merchant);
    assert_eq!(r, Err(SettlementError::Unauthorized));
}

#[test]
fn clear_settlement_rule_fails_when_not_set() {
    let (mut env, mut client, _admin, merchant) = fee_setup();
    client.register_merchant(&mut env, merchant).unwrap();
    let r = client.clear_settlement_rule(&mut env, merchant);
    assert_eq!(r, Err(SettlementError::MerchantRuleNotSet));
}

#[test]
fn set_default_rule_stores_and_can_be_retrieved() {
    let (mut env, mut client, _admin, _merchant) = fee_setup();
    assert!(client.get_default_rule().is_none());
    client.set_default_rule(&mut env, rule(300, 100, 5, true)).unwrap();
    let stored = client.get_default_rule().expect("global default must be present");
    assert_eq!(stored.platform_fee_bps, 300);
    assert_eq!(stored.network_fee_bps, 100);
    assert_eq!(stored.settlement_delay_ledger, 5);
    assert!(stored.auto_settle);
}

#[test]
fn set_default_rule_emits_event_with_correct_topic() {
    let (mut env, mut client, _admin, _merchant) = fee_setup();
    client.set_default_rule(&mut env, rule(150, 25, 0, false)).unwrap();
    let events = env.events();
    match events[events.len() - 1].event {
        ContractEvent::DefaultRuleUpdated { current, .. } => assert_eq!(current, rule(150, 25, 0, false)),
        other => panic!("unexpected event {:?}", other),
    }
}

#[test]
fn set_default_rule_updates_twice_emits_correct_previous() {
    let (mut env, mut client, _admin, _merchant) = fee_setup();
    let first = rule(200, 50, 10, true);
    client.set_default_rule(&mut env, first).unwrap();
    let stored = client.get_default_rule().expect("global default must be present");
    assert_eq!(stored.platform_fee_bps, 200);

    let second = rule(500, 100, 20, false);
    client.set_default_rule(&mut env, second).unwrap();
    let stored = client.get_default_rule().expect("global default must be present");
    assert_eq!(stored.platform_fee_bps, 500);
    match env.events()[env.events().len() - 1].event {
        ContractEvent::DefaultRuleUpdated { previous, current, .. } => {
            assert_eq!(previous, first);
            assert_eq!(current, second);
        },
        other => panic!("unexpected event {:?}", other),
    }
}

#[test]
fn set_default_rule_fails_for_non_admin() {
    let mut env = Env::new();
    let admin = env.generate_address(AddressKind::Account);
    let governance = deploy_governance(&mut env, None);
    let recovery = env.generate_address(AddressKind::Account);
    env.set_auths(vec![admin]);
    let mut client = deploy_settlement(&mut env, admin, governance, recovery).unwrap();
    env.set_auths(vec![]);
    let r = client.set_default_rule(&mut env, rule(200, 50, 10, true));
    assert_eq!(r, Err(SettlementError::Unauthorized));
}

#[test]
fn set_default_rule_rejects_invalid_fee_bps() {
    let (mut env, mut client, _admin, _merchant) = fee_setup();
    let r = client.set_default_rule(&mut env, rule(10_001, 5, 0, false));
    assert_eq!(r, Err(SettlementError::InvalidFeeBps));
}

#[test]
fn set_default_rule_rejects_below_governance_min_fee() {
    let (mut env, mut client, _admin, _merchant) = fee_setup();
    let r = client.set_default_rule(&mut env, rule(4, 5, 0, false));
    assert_eq!(r, Err(SettlementError::InvalidFeeBps));
}

#[test]
fn accepts_default_rule_with_valid_settlement_delay() {
    let (mut env, mut client, _admin, _merchant) = fee_setup();
    client.set_default_rule(&mut env, rule(200, 50, 50_000, true)).unwrap();
    let stored = client.get_default_rule().expect("expected default rule");
    assert_eq!(stored.settlement_delay_ledger, 50_000);
}

#[test]
fn accepts_default_rule_at_settlement_delay_maximum() {
    let (mut env, mut client, _admin, _merchant) = fee_setup();
    client.set_default_rule(&mut env, rule(200, 50, 100_000, true)).unwrap();
    let stored = client.get_default_rule().expect("expected default rule");
    assert_eq!(stored.settlement_delay_ledger, 100_000);
}

#[test]
fn rejects_default_rule_with_settlement_delay_above_maximum() {
    let (mut env, mut client, _admin, _merchant) = fee_setup();
    let r = client.set_default_rule(&mut env, rule(200, 50, 100_001, true));
    assert_eq!(r, Err(SettlementError::InvalidSettlementDelay));
}

#[test]
fn rejects_default_rule_with_settlement_delay_at_u32_max() {
    let (mut env, mut client, _admin, _merchant) = fee_setup();
    let r = client.set_default_rule(&mut env, rule(200, 50, u32::MAX, true));
    assert_eq!(r, Err(SettlementError::InvalidSettlementDelay));
}

#[test]
fn settlement_min_fee_matches_governance_min_fee() {
    let governance_min_fee_bps: u32 = 5;
    let settlement_min_fee_bps: u32 = MIN_FEE_BPS;
    assert_eq!(
        governance_min_fee_bps, settlement_min_fee_bps,
        "settlement MIN_FEE_BPS must match governance MIN_FEE_BPS"
    );
}

#[test]
fn read_rule_or_default_short_circuits_on_merchant_rule_without_touching_default() {
    let (mut env, mut client, _admin, merchant) = fee_setup();
    client.register_merchant(&mut env, merchant).unwrap();
    client.set_default_rule(&mut env, rule(200, 50, 10, true)).unwrap();
    let merchant_rule = rule(300, 75, 20, false);
    client.set_settlement_rule(&mut env, merchant, merchant_rule).unwrap();
    let before = env.events().len();
    let resolved = client.read_rule_or_default(&mut env, &merchant);
    assert_eq!(resolved, merchant_rule);
    assert_eq!(env.events().len(), before);
}

#[test]
fn read_rule_or_default_falls_back_to_default_without_creating_merchant_entry() {
    let (mut env, mut client, _admin, merchant) = fee_setup();
    client.register_merchant(&mut env, merchant).unwrap();
    let default_rule = rule(150, 25, 5, true);
    client.set_default_rule(&mut env, default_rule).unwrap();
    let resolved = client.read_rule_or_default(&mut env, &merchant);
    assert_eq!(resolved, default_rule);
    assert!(client.get_settlement_rule(&merchant).is_none());
}

#[test]
fn read_rule_or_default_bootstrap_path_reads_only_leaves_no_storage_footprint() {
    let (mut env, mut client, _admin, merchant) = fee_setup();
    client.register_merchant(&mut env, merchant).unwrap();
    let before = env.events().len();
    let resolved = client.read_rule_or_default(&mut env, &merchant);
    assert_eq!(resolved, bootstrap_default_rule());
    assert!(client.get_settlement_rule(&merchant).is_none());
    assert!(client.get_default_rule().is_none());
    assert_eq!(env.events().len(), before + 1, "exactly one bootstrap_fallback event expected");
}
