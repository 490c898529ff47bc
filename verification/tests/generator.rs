use cosmwasm_std::testing::MockApi;
use cosmwasm_std::{Addr, Api, StdError};
use rotosports_config::asset::AssetInfo;
use rotosports_config::generator::{
    migrate_configs_from_v200, migrate_configs_from_v210, migrate_configs_from_v220, Config,
    ConfigV200, ConfigV210, ConfigV220, MigrateMsg,
};

fn a(s: &str) -> Addr {
    Addr::unchecked(s)
}

fn pools() -> Vec<(Addr, u128)> {
    vec![(a("lp-one"), 60), (a("lp-two"), 40)]
}

fn blocked() -> Vec<AssetInfo> {
    vec![AssetInfo::NativeToken { denom: "uluna".to_string() }]
}

fn v200() -> ConfigV200 {
    ConfigV200 {
        owner: a("owner"),
        factory: a("factory"),
        generator_controller: Some(a("controller")),
        voting_escrow: None,
        roto_token: a("roto-token"),
        tokens_per_block: 10,
        total_alloc_point: 100,
        start_block: 5,
        allowed_reward_proxies: vec![a("proxy")],
        vesting_contract: a("vesting"),
        active_pools: pools(),
        blocked_tokens_list: blocked(),
        guardian: Some(a("guardian")),
        checkpoint_generator_limit: Some(7),
    }
}

fn v210() -> ConfigV210 {
    ConfigV210 {
        owner: a("owner"),
        factory: a("factory"),
        generator_controller: Some(a("controller")),
        voting_escrow: None,
        roto_token: a("roto-token"),
        tokens_per_block: 10,
        total_alloc_point: 100,
        start_block: 5,
        vesting_contract: a("vesting"),
        active_pools: pools(),
        blocked_tokens_list: blocked(),
        guardian: Some(a("guardian")),
        checkpoint_generator_limit: Some(7),
    }
}

fn v220() -> ConfigV220 {
    ConfigV220 {
        owner: a("owner"),
        factory: a("factory"),
        generator_controller: Some(a("controller")),
        voting_escrow: None,
        roto_token: AssetInfo::Token { contract_addr: a("roto-token") },
        tokens_per_block: 10,
        total_alloc_point: 100,
        start_block: 5,
        vesting_contract: a("vesting"),
        active_pools: pools(),
        blocked_tokens_list: blocked(),
        guardian: Some(a("guardian")),
        checkpoint_generator_limit: Some(7),
    }
}

fn expected(delegation: Option<Addr>) -> Config {
    Config {
        owner: a("owner"),
        factory: a("factory"),
        generator_controller: Some(a("controller")),
        voting_escrow: None,
        voting_escrow_delegation: delegation,
        roto_token: AssetInfo::Token { contract_addr: a("roto-token") },
        tokens_per_block: 10,
        total_alloc_point: 100,
        start_block: 5,
        vesting_contract: a("vesting"),
        active_pools: pools(),
        blocked_tokens_list: blocked(),
        guardian: Some(a("guardian")),
        checkpoint_generator_limit: Some(7),
    }
}

fn no_delegation() -> MigrateMsg {
    MigrateMsg { voting_escrow_delegation: None }
}

fn delegation(s: &str) -> MigrateMsg {
    MigrateMsg { voting_escrow_delegation: Some(s.to_string()) }
}

#[test]
fn v200_without_delegation() {
    let api = MockApi::default();
    let cfg = migrate_configs_from_v200(v200(), &no_delegation(), |s: &String| api.addr_validate(s));
    assert_eq!(cfg, Ok(expected(None)));
}

#[test]
fn v200_with_valid_delegation() {
    let api = MockApi::default();
    let cfg = migrate_configs_from_v200(v200(), &delegation("delegation"), |s: &String| {
        api.addr_validate(s)
    });
    assert_eq!(cfg, Ok(expected(Some(a("delegation")))));
}

#[test]
fn v200_with_invalid_delegation() {
    let api = MockApi::default();
    let cfg = migrate_configs_from_v200(v200(), &delegation("Delegation"), |s: &String| {
        api.addr_validate(s)
    });
    assert_eq!(cfg, Err(StdError::generic_err("Invalid input: address not normalized")));
}

#[test]
fn v210_without_delegation() {
    let api = MockApi::default();
    let cfg = migrate_configs_from_v210(v210(), &no_delegation(), |s: &String| api.addr_validate(s));
    assert_eq!(cfg, Ok(expected(None)));
}

#[test]
fn v210_with_delegation_uses_the_validated_address() {
    let cfg = migrate_configs_from_v210(v210(), &delegation("d"), |s: &String| {
        Ok(Addr::unchecked(format!("validated-{}", s)))
    });
    assert_eq!(cfg, Ok(expected(Some(a("validated-d")))));
}

#[test]
fn v210_with_invalid_delegation() {
    let api = MockApi::default();
    let cfg = migrate_configs_from_v210(v210(), &delegation("d"), |s: &String| api.addr_validate(s));
    assert!(matches!(cfg, Err(StdError::GenericErr { .. })));
}

#[test]
fn v220_keeps_roto_asset() {
    let api = MockApi::default();
    let mut old = v220();
    old.roto_token = AssetInfo::NativeToken { denom: "uroto".to_string() };
    let cfg = migrate_configs_from_v220(old, &no_delegation(), |s: &String| api.addr_validate(s))
        .unwrap();
    assert_eq!(cfg.roto_token, AssetInfo::NativeToken { denom: "uroto".to_string() });
    assert_eq!(cfg.voting_escrow_delegation, None);
}

#[test]
fn v220_with_valid_delegation() {
    let api = MockApi::default();
    let cfg = migrate_configs_from_v220(v220(), &delegation("delegation"), |s: &String| {
        api.addr_validate(s)
    });
    assert_eq!(cfg, Ok(expected(Some(a("delegation")))));
}

#[test]
fn validator_is_not_called_without_delegation() {
    let cfg = migrate_configs_from_v220(v220(), &no_delegation(), |_: &String| {
        Err(StdError::generic_err("must not be called"))
    });
    assert_eq!(cfg, Ok(expected(None)));
}

#[test]
fn all_versions_migrate_alike() {
    let api = MockApi::default();
    let validate = |s: &String| api.addr_validate(s);
    let from_200 = migrate_configs_from_v200(v200(), &delegation("delegation"), validate);
    let from_210 = migrate_configs_from_v210(v210(), &delegation("delegation"), validate);
    let from_220 = migrate_configs_from_v220(v220(), &delegation("delegation"), validate);
    assert_eq!(from_200, from_210);
    assert_eq!(from_210, from_220);
}

#[test]
fn alloc_points_stay_the_pool_sum() {
    let api = MockApi::default();
    let cfg = migrate_configs_from_v200(v200(), &no_delegation(), |s: &String| api.addr_validate(s))
        .unwrap();
    let sum: u128 = cfg.active_pools.iter().map(|(_, p)| *p).sum();
    assert_eq!(cfg.total_alloc_point, sum);
}
