//! The concentrated pair's configuration and its migrations from earlier versions.
//!
//! The pool parameters and pool state are carried through every migration as they
//! are; the configuration is generic over their types (`P` and `S`).
use crate::asset::{AssetInfo, PairInfo, PairType};
use cosmwasm_std::Addr;
use vstd::prelude::*;

verus! {

/// The name under which a concentrated pair is a custom pair type.
pub open spec fn concentrated_name() -> Seq<char> {
    "concentrated"@
}

/// This structure stores the main config parameters for a concentrated pair contract.
#[derive(Debug, PartialEq, Eq)]
pub struct Config<P, S> {
    /// The pair information stored in a [`PairInfo`] struct
    pub pair_info: PairInfo,
    /// The factory contract address
    pub factory_addr: Addr,
    /// The last timestamp when the pair contract updated the asset cumulative prices
    pub block_time_last: u64,
    /// The vector contains cumulative prices for each pair of assets in the pool
    pub cumulative_prices: Vec<(AssetInfo, AssetInfo, u128)>,
    /// Pool parameters
    pub pool_params: P,
    /// Pool state
    pub pool_state: S,
    /// Pool's owner
    pub owner: Option<Addr>,
    /// Whether asset balances are tracked over blocks or not
    pub track_asset_balances: bool,
}

/// The pair types of the earliest stored configurations.
#[derive(Debug, PartialEq, Eq)]
pub enum OldPairType {
    /// XYK pair type
    Xyk {},
    /// Stable pair type
    Stable {},
    /// Concentrated pair type
    Concentrated {},
    /// Custom pair type
    Custom(String),
}

/// The pair information of the earliest stored configurations.
#[derive(Debug, PartialEq, Eq)]
pub struct OldPairInfo {
    /// Asset information for the assets in the pool
    pub asset_infos: Vec<AssetInfo>,
    /// Pair contract address
    pub contract_addr: Addr,
    /// Pair LP token address
    pub liquidity_token: Addr,
    /// The pool type (xyk, stableswap etc) available in [`OldPairType`]
    pub pair_type: OldPairType,
}

/// The earliest stored configuration of a concentrated pair.
#[derive(Debug, PartialEq, Eq)]
pub struct OldConfig<P, S> {
    /// The pair information stored in a [`OldPairInfo`] struct
    pub pair_info: OldPairInfo,
    /// The factory contract address
    pub factory_addr: Addr,
    /// The last timestamp when the pair contract updated the asset cumulative prices
    pub block_time_last: u64,
    /// The vector contains cumulative prices for each pair of assets in the pool
    pub cumulative_prices: Vec<(AssetInfo, AssetInfo, u128)>,
    /// Pool parameters
    pub pool_params: P,
    /// Pool state
    pub pool_state: S,
    /// Pool's owner
    pub owner: Option<Addr>,
}

/// The stored configuration of a concentrated pair of version 1.4.0.
#[derive(Debug, PartialEq, Eq)]
pub struct ConfigV140<P, S> {
    /// The pair information stored in a [`PairInfo`] struct
    pub pair_info: PairInfo,
    /// The factory contract address
    pub factory_addr: Addr,
    /// The last timestamp when the pair contract updated the asset cumulative prices
    pub block_time_last: u64,
    /// The vector contains cumulative prices for each pair of assets in the pool
    pub cumulative_prices: Vec<(AssetInfo, AssetInfo, u128)>,
    /// Pool parameters
    pub pool_params: P,
    /// Pool state
    pub pool_state: S,
    /// Pool's owner
    pub owner: Option<Addr>,
}

/// `new` is `old` migrated: the pair information keeps its assets, contract and LP
/// token and becomes a custom pair named "concentrated", whatever pair type `old`
/// held; every other field is kept, and asset balances are not tracked.
pub open spec fn migrated_from_old<P, S>(old: OldConfig<P, S>, new: Config<P, S>) -> bool {
    &&& new.pair_info.asset_infos == old.pair_info.asset_infos
    &&& new.pair_info.contract_addr == old.pair_info.contract_addr
    &&& new.pair_info.liquidity_token == old.pair_info.liquidity_token
    &&& new.pair_info.pair_type matches PairType::Custom(name)
    &&& name@ == concentrated_name()
    &&& new.factory_addr == old.factory_addr
    &&& new.block_time_last == old.block_time_last
    &&& new.cumulative_prices == old.cumulative_prices
    &&& new.pool_params == old.pool_params
    &&& new.pool_state == old.pool_state
    &&& new.owner == old.owner
    &&& !new.track_asset_balances
}

impl<P, S> ConfigV140<P, S> {
    /// The current configuration that this one becomes: every field is kept and asset
    /// balances are not tracked.
    pub open spec fn upgraded(self) -> Config<P, S> {
        Config {
            pair_info: self.pair_info,
            factory_addr: self.factory_addr,
            block_time_last: self.block_time_last,
            cumulative_prices: self.cumulative_prices,
            pool_params: self.pool_params,
            pool_state: self.pool_state,
            owner: self.owner,
            track_asset_balances: false,
        }
    }
}

/// Migrates the earliest stored configuration: the pair becomes a custom pair named
/// "concentrated" and asset balance tracking is off.
pub fn migrate_config<P, S>(old_config: OldConfig<P, S>) -> (new_config: Config<P, S>)
    ensures
        migrated_from_old(old_config, new_config),
        new_config.pair_info.asset_infos == old_config.pair_info.asset_infos,
        new_config.pair_info.contract_addr == old_config.pair_info.contract_addr,
        new_config.pair_info.liquidity_token == old_config.pair_info.liquidity_token,
        new_config.pair_info.pair_type matches PairType::Custom(name) && name@ == "concentrated"@,
        new_config.factory_addr == old_config.factory_addr,
        new_config.block_time_last == old_config.block_time_last,
        new_config.cumulative_prices == old_config.cumulative_prices,
        new_config.pool_params == old_config.pool_params,
        new_config.pool_state == old_config.pool_state,
        new_config.owner == old_config.owner,
        !new_config.track_asset_balances,
{
    let pair_info = PairInfo {
        asset_infos: old_config.pair_info.asset_infos,
        contract_addr: old_config.pair_info.contract_addr,
        liquidity_token: old_config.pair_info.liquidity_token,
        pair_type: PairType::Custom("concentrated".to_string()),
    };

    Config {
        pair_info,
        factory_addr: old_config.factory_addr,
        block_time_last: old_config.block_time_last,
        cumulative_prices: old_config.cumulative_prices,
        pool_params: old_config.pool_params,
        pool_state: old_config.pool_state,
        owner: old_config.owner,
        track_asset_balances: false,
    }
}

/// Migrates a version 1.4.0 configuration: asset balance tracking is off.
pub fn migrate_config_from_v140<P, S>(old_config: ConfigV140<P, S>) -> (new_config: Config<P, S>)
    ensures
        new_config == old_config.upgraded(),
        new_config.pair_info == old_config.pair_info,
        new_config.factory_addr == old_config.factory_addr,
        new_config.block_time_last == old_config.block_time_last,
        new_config.cumulative_prices == old_config.cumulative_prices,
        new_config.pool_params == old_config.pool_params,
        new_config.pool_state == old_config.pool_state,
        new_config.owner == old_config.owner,
        !new_config.track_asset_balances,
{
    Config {
        pair_info: old_config.pair_info,
        factory_addr: old_config.factory_addr,
        block_time_last: old_config.block_time_last,
        cumulative_prices: old_config.cumulative_prices,
        pool_params: old_config.pool_params,
        pool_state: old_config.pool_state,
        owner: old_config.owner,
        track_asset_balances: false,
    }
}

/// Migrating the earliest configuration gives what migrating a version 1.4.0 one gives,
/// when the latter holds the same fields and a custom pair named "concentrated".
pub proof fn lemma_old_migrates_like_v140<P, S>(old: OldConfig<P, S>, v140: ConfigV140<P, S>)
    requires
        v140.pair_info.asset_infos == old.pair_info.asset_infos,
        v140.pair_info.contract_addr == old.pair_info.contract_addr,
        v140.pair_info.liquidity_token == old.pair_info.liquidity_token,
        v140.pair_info.pair_type matches PairType::Custom(name) && name@ == concentrated_name(),
        v140.factory_addr == old.factory_addr,
        v140.block_time_last == old.block_time_last,
        v140.cumulative_prices == old.cumulative_prices,
        v140.pool_params == old.pool_params,
        v140.pool_state == old.pool_state,
        v140.owner == old.owner,
    ensures
        migrated_from_old(old, v140.upgraded()),
{
}

/// Migrating a version 1.4.0 configuration keeps its pair information, factory, price
/// history, pool parameters and state, and owner, and switches off balance tracking.
pub proof fn lemma_v140_keeps_stored_fields<P, S>(old_config: ConfigV140<P, S>, new_config: Config<P, S>)
    requires
        new_config == old_config.upgraded(),
    ensures
        new_config.pair_info == old_config.pair_info,
        new_config.factory_addr == old_config.factory_addr,
        new_config.block_time_last == old_config.block_time_last,
        new_config.cumulative_prices == old_config.cumulative_prices,
        new_config.pool_params == old_config.pool_params,
        new_config.pool_state == old_config.pool_state,
        new_config.owner == old_config.owner,
        !new_config.track_asset_balances,
{
}

/// Migrating the earliest configuration keeps the pair's assets, contract and LP token,
/// the factory, price history, pool parameters and state, and owner; the pair becomes a
/// custom pair named "concentrated" and balance tracking is off.
pub proof fn lemma_old_keeps_stored_fields<P, S>(old_config: OldConfig<P, S>, new_config: Config<P, S>)
    requires
        migrated_from_old(old_config, new_config),
    ensures
        new_config.pair_info.asset_infos == old_config.pair_info.asset_infos,
        new_config.pair_info.contract_addr == old_config.pair_info.contract_addr,
        new_config.pair_info.liquidity_token == old_config.pair_info.liquidity_token,
        new_config.pair_info.pair_type matches PairType::Custom(name) && name@ == "concentrated"@,
        new_config.factory_addr == old_config.factory_addr,
        new_config.block_time_last == old_config.block_time_last,
        new_config.cumulative_prices == old_config.cumulative_prices,
        new_config.pool_params == old_config.pool_params,
        new_config.pool_state == old_config.pool_state,
        new_config.owner == old_config.owner,
        !new_config.track_asset_balances,
{
}

} // verus!
