use cosmwasm_std::Addr;
use rotosports_config::asset::{AssetInfo, PairInfo, PairType};
use rotosports_config::pair_concentrated::{
    migrate_config, migrate_config_from_v140, Config, ConfigV140, OldConfig, OldPairInfo,
    OldPairType,
};

fn a(s: &str) -> Addr {
    Addr::unchecked(s)
}

fn assets() -> Vec<AssetInfo> {
    vec![
        AssetInfo::Token { contract_addr: a("roto-token") },
        AssetInfo::NativeToken { denom: "uusd".to_string() },
    ]
}

fn prices() -> Vec<(AssetInfo, AssetInfo, u128)> {
    vec![(
        AssetInfo::Token { contract_addr: a("roto-token") },
        AssetInfo::NativeToken { denom: "uusd".to_string() },
        192738282,
    )]
}

fn old_config(pair_type: OldPairType) -> OldConfig<u32, String> {
    OldConfig {
        pair_info: OldPairInfo {
            asset_infos: assets(),
            contract_addr: a("pair"),
            liquidity_token: a("lp-token"),
            pair_type,
        },
        factory_addr: a("factory"),
        block_time_last: 86400,
        cumulative_prices: prices(),
        pool_params: 3,
        pool_state: "state".to_string(),
        owner: Some(a("owner")),
    }
}

fn expected(pair_type: PairType) -> Config<u32, String> {
    Config {
        pair_info: PairInfo {
            asset_infos: assets(),
            contract_addr: a("pair"),
            liquidity_token: a("lp-token"),
            pair_type,
        },
        factory_addr: a("factory"),
        block_time_last: 86400,
        cumulative_prices: prices(),
        pool_params: 3,
        pool_state: "state".to_string(),
        owner: Some(a("owner")),
        track_asset_balances: false,
    }
}

#[test]
fn old_concentrated_becomes_custom_concentrated() {
    assert_eq!(
        migrate_config(old_config(OldPairType::Concentrated {})),
        expected(PairType::Custom("concentrated".to_string()))
    );
}

#[test]
fn any_old_pair_type_becomes_custom_concentrated() {
    for t in [
        OldPairType::Xyk {},
        OldPairType::Stable {},
        OldPairType::Custom("other".to_string()),
    ] {
        assert_eq!(migrate_config(old_config(t)), expected(PairType::Custom("concentrated".to_string())));
    }
}

#[test]
fn v140_keeps_everything_and_stops_tracking() {
    let v140 = ConfigV140 {
        pair_info: PairInfo {
            asset_infos: assets(),
            contract_addr: a("pair"),
            liquidity_token: a("lp-token"),
            pair_type: PairType::Xyk {},
        },
        factory_addr: a("factory"),
        block_time_last: 86400,
        cumulative_prices: prices(),
        pool_params: 3u32,
        pool_state: "state".to_string(),
        owner: Some(a("owner")),
    };
    assert_eq!(migrate_config_from_v140(v140), expected(PairType::Xyk {}));
}

#[test]
fn old_and_v140_migrations_agree() {
    let v140 = ConfigV140 {
        pair_info: PairInfo {
            asset_infos: assets(),
            contract_addr: a("pair"),
            liquidity_token: a("lp-token"),
            pair_type: PairType::Custom("concentrated".to_string()),
        },
        factory_addr: a("factory"),
        block_time_last: 86400,
        cumulative_prices: prices(),
        pool_params: 3u32,
        pool_state: "state".to_string(),
        owner: Some(a("owner")),
    };
    assert_eq!(migrate_config(old_config(OldPairType::Stable {})), migrate_config_from_v140(v140));
}
