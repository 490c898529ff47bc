//! The generator contract's configuration and its migrations from earlier versions.
use crate::asset::{token_asset_info, AssetInfo};
use cosmwasm_std::{Addr, StdError};
use vstd::prelude::*;

verus! {

/// The sum of the allocation points of `pools`.
pub open spec fn alloc_point_sum(pools: Seq<(Addr, u128)>) -> int
    decreases pools.len(),
{
    if pools.len() == 0 {
        0
    } else {
        alloc_point_sum(pools.drop_last()) + pools.last().1
    }
}

/// This structure stores the core parameters for the Generator contract.
#[derive(Debug, PartialEq, Eq)]
pub struct Config {
    /// Address allowed to change contract parameters
    pub owner: Addr,
    /// The Factory address
    pub factory: Addr,
    /// Contract address which can only set active generators and their alloc points
    pub generator_controller: Option<Addr>,
    /// The voting escrow contract address
    pub voting_escrow: Option<Addr>,
    /// The voting escrow delegation contract address
    pub voting_escrow_delegation: Option<Addr>,
    /// [`AssetInfo`] of the ROTO token
    pub roto_token: AssetInfo,
    /// Total amount of ROTO rewards per block
    pub tokens_per_block: u128,
    /// Total allocation points. Must be the sum of all allocation points in all active generators
    pub total_alloc_point: u128,
    /// The block number when the ROTO distribution starts
    pub start_block: u64,
    /// The vesting contract from which rewards are distributed
    pub vesting_contract: Addr,
    /// The list of active pools with allocation points
    pub active_pools: Vec<(Addr, u128)>,
    /// The list of blocked tokens
    pub blocked_tokens_list: Vec<AssetInfo>,
    /// The guardian address which can add or remove tokens from blacklist
    pub guardian: Option<Addr>,
    /// The amount of generators
    pub checkpoint_generator_limit: Option<u32>,
}

impl Config {
    /// The total allocation points are the sum of those of the active pools.
    pub open spec fn alloc_points_consistent(self) -> bool {
        self.total_alloc_point == alloc_point_sum(self.active_pools@)
    }
}

/// The generator's migration message.
#[derive(Debug, PartialEq, Eq)]
pub struct MigrateMsg {
    /// The voting escrow delegation contract address to set, if any.
    pub voting_escrow_delegation: Option<String>,
}

/// This structure stores the core parameters for the Generator contract.
#[derive(Debug, PartialEq, Eq)]
pub struct ConfigV200 {
    /// Address allowed to change contract parameters
    pub owner: Addr,
    /// The Factory address
    pub factory: Addr,
    /// Contract address which can only set active generators and their alloc points
    pub generator_controller: Option<Addr>,
    /// The voting escrow contract address
    pub voting_escrow: Option<Addr>,
    /// The ROTO token address
    pub roto_token: Addr,
    /// Total amount of ROTO rewards per block
    pub tokens_per_block: u128,
    /// Total allocation points. Must be the sum of all allocation points in all active generators
    pub total_alloc_point: u128,
    /// The block number when the ROTO distribution starts
    pub start_block: u64,
    /// The list of allowed proxy reward contracts
    pub allowed_reward_proxies: Vec<Addr>,
    /// The vesting contract from which rewards are distributed
    pub vesting_contract: Addr,
    /// The list of active pools with allocation points
    pub active_pools: Vec<(Addr, u128)>,
    /// The list of blocked tokens
    pub blocked_tokens_list: Vec<AssetInfo>,
    /// The guardian address which can add or remove tokens from blacklist
    pub guardian: Option<Addr>,
    /// The amount of generators
    pub checkpoint_generator_limit: Option<u32>,
}

/// This structure stores the core parameters for the Generator contract.
#[derive(Debug, PartialEq, Eq)]
pub struct ConfigV210 {
    /// Address allowed to change contract parameters
    pub owner: Addr,
    /// The Factory address
    pub factory: Addr,
    /// Contract address which can only set active generators and their alloc points
    pub generator_controller: Option<Addr>,
    /// The voting escrow contract address
    pub voting_escrow: Option<Addr>,
    /// The ROTO token address
    pub roto_token: Addr,
    /// Total amount of ROTO rewards per block
    pub tokens_per_block: u128,
    /// Total allocation points. Must be the sum of all allocation points in all active generators
    pub total_alloc_point: u128,
    /// The block number when the ROTO distribution starts
    pub start_block: u64,
    /// The vesting contract from which rewards are distributed
    pub vesting_contract: Addr,
    /// The list of active pools with allocation points
    pub active_pools: Vec<(Addr, u128)>,
    /// The list of blocked tokens
    pub blocked_tokens_list: Vec<AssetInfo>,
    /// The guardian address which can add or remove tokens from blacklist
    pub guardian: Option<Addr>,
    /// The amount of generators
    pub checkpoint_generator_limit: Option<u32>,
}

/// This structure stores the core parameters for the Generator contract.
#[derive(Debug, PartialEq, Eq)]
pub struct ConfigV220 {
    /// Address allowed to change contract parameters
    pub owner: Addr,
    /// The Factory address
    pub factory: Addr,
    /// Contract address which can only set active generators and their alloc points
    pub generator_controller: Option<Addr>,
    /// The voting escrow contract address
    pub voting_escrow: Option<Addr>,
    /// [`AssetInfo`] of the ROTO token
    pub roto_token: AssetInfo,
    /// Total amount of ROTO rewards per block
    pub tokens_per_block: u128,
    /// Total allocation points. Must be the sum of all allocation points in all active generators
    pub total_alloc_point: u128,
    /// The block number when the ROTO distribution starts
    pub start_block: u64,
    /// The vesting contract from which rewards are distributed
    pub vesting_contract: Addr,
    /// The list of active pools with allocation points
    pub active_pools: Vec<(Addr, u128)>,
    /// The list of blocked tokens
    pub blocked_tokens_list: Vec<AssetInfo>,
    /// The guardian address which can add or remove tokens from blacklist
    pub guardian: Option<Addr>,
    /// The amount of generators
    pub checkpoint_generator_limit: Option<u32>,
}

impl ConfigV200 {
    /// The current configuration that this one becomes, with no voting escrow
    /// delegation: every shared field is kept, the reward proxy list is dropped and the
    /// ROTO token address becomes the asset information of that token.
    pub open spec fn upgraded(self) -> Config {
        Config {
            owner: self.owner,
            factory: self.factory,
            generator_controller: self.generator_controller,
            voting_escrow: self.voting_escrow,
            voting_escrow_delegation: None,
            roto_token: AssetInfo::Token { contract_addr: self.roto_token },
            tokens_per_block: self.tokens_per_block,
            total_alloc_point: self.total_alloc_point,
            start_block: self.start_block,
            vesting_contract: self.vesting_contract,
            active_pools: self.active_pools,
            blocked_tokens_list: self.blocked_tokens_list,
            guardian: self.guardian,
            checkpoint_generator_limit: self.checkpoint_generator_limit,
        }
    }

    /// The v2.1.0 configuration with the same fields, that is, this one without the
    /// reward proxy list.
    pub open spec fn without_reward_proxies(self) -> ConfigV210 {
        ConfigV210 {
            owner: self.owner,
            factory: self.factory,
            generator_controller: self.generator_controller,
            voting_escrow: self.voting_escrow,
            roto_token: self.roto_token,
            tokens_per_block: self.tokens_per_block,
            total_alloc_point: self.total_alloc_point,
            start_block: self.start_block,
            vesting_contract: self.vesting_contract,
            active_pools: self.active_pools,
            blocked_tokens_list: self.blocked_tokens_list,
            guardian: self.guardian,
            checkpoint_generator_limit: self.checkpoint_generator_limit,
        }
    }

    /// The total allocation points are the sum of those of the active pools.
    pub open spec fn alloc_points_consistent(self) -> bool {
        self.total_alloc_point == alloc_point_sum(self.active_pools@)
    }
}

impl ConfigV210 {
    /// The current configuration that this one becomes, with no voting escrow
    /// delegation: every field is kept and the ROTO token address becomes the asset
    /// information of that token.
    pub open spec fn upgraded(self) -> Config {
        Config {
            owner: self.owner,
            factory: self.factory,
            generator_controller: self.generator_controller,
            voting_escrow: self.voting_escrow,
            voting_escrow_delegation: None,
            roto_token: AssetInfo::Token { contract_addr: self.roto_token },
            tokens_per_block: self.tokens_per_block,
            total_alloc_point: self.total_alloc_point,
            start_block: self.start_block,
            vesting_contract: self.vesting_contract,
            active_pools: self.active_pools,
            blocked_tokens_list: self.blocked_tokens_list,
            guardian: self.guardian,
            checkpoint_generator_limit: self.checkpoint_generator_limit,
        }
    }

    /// The v2.2.0 configuration with the same fields, the ROTO token address given as
    /// the asset information of that token.
    pub open spec fn with_roto_asset(self) -> ConfigV220 {
        ConfigV220 {
            owner: self.owner,
            factory: self.factory,
            generator_controller: self.generator_controller,
            voting_escrow: self.voting_escrow,
            roto_token: AssetInfo::Token { contract_addr: self.roto_token },
            tokens_per_block: self.tokens_per_block,
            total_alloc_point: self.total_alloc_point,
            start_block: self.start_block,
            vesting_contract: self.vesting_contract,
            active_pools: self.active_pools,
            blocked_tokens_list: self.blocked_tokens_list,
            guardian: self.guardian,
            checkpoint_generator_limit: self.checkpoint_generator_limit,
        }
    }

    /// The total allocation points are the sum of those of the active pools.
    pub open spec fn alloc_points_consistent(self) -> bool {
        self.total_alloc_point == alloc_point_sum(self.active_pools@)
    }
}

impl ConfigV220 {
    /// The current configuration that this one becomes, with no voting escrow
    /// delegation: every field is kept.
    pub open spec fn upgraded(self) -> Config {
        Config {
            owner: self.owner,
            factory: self.factory,
            generator_controller: self.generator_controller,
            voting_escrow: self.voting_escrow,
            voting_escrow_delegation: None,
            roto_token: self.roto_token,
            tokens_per_block: self.tokens_per_block,
            total_alloc_point: self.total_alloc_point,
            start_block: self.start_block,
            vesting_contract: self.vesting_contract,
            active_pools: self.active_pools,
            blocked_tokens_list: self.blocked_tokens_list,
            guardian: self.guardian,
            checkpoint_generator_limit: self.checkpoint_generator_limit,
        }
    }

    /// The total allocation points are the sum of those of the active pools.
    pub open spec fn alloc_points_consistent(self) -> bool {
        self.total_alloc_point == alloc_point_sum(self.active_pools@)
    }
}

/// `base` with its voting escrow delegation set to `delegation`.
pub open spec fn with_delegation(base: Config, delegation: Option<Addr>) -> Config {
    Config { voting_escrow_delegation: delegation, ..base }
}

/// `res` is what applying `msg` to `base` gives: `base` itself when the message names
/// no voting escrow delegation; otherwise `base` with the address that `validate`
/// returned for the named one, or the error that `validate` reported for it.
pub open spec fn delegation_applied<F: Fn(&String) -> Result<Addr, StdError>>(
    base: Config,
    msg: MigrateMsg,
    validate: F,
    res: Result<Config, StdError>,
) -> bool {
    match msg.voting_escrow_delegation {
        None => res == Ok::<Config, StdError>(base),
        Some(d) => match res {
            Ok(c) => {
                &&& c.voting_escrow_delegation matches Some(a)
                &&& validate.ensures((&d,), Ok(a))
                &&& c == with_delegation(base, Some(a))
            },
            Err(e) => validate.ensures((&d,), Err(e)),
        },
    }
}

/// `validate` may be called on the delegation address that `msg` names, if any.
pub open spec fn may_validate<F: Fn(&String) -> Result<Addr, StdError>>(
    msg: MigrateMsg,
    validate: F,
) -> bool {
    msg.voting_escrow_delegation matches Some(d) ==> validate.requires((&d,))
}

/// Sets the voting escrow delegation that `msg` names, once `validate` has accepted it.
fn apply_migrate_msg<F: Fn(&String) -> Result<Addr, StdError>>(
    cfg: Config,
    msg: &MigrateMsg,
    validate: F,
) -> (res: Result<Config, StdError>)
    requires
        may_validate(*msg, validate),
    ensures
        delegation_applied(cfg, *msg, validate, res),
{
    let mut cfg = cfg;
    match &msg.voting_escrow_delegation {
        Some(voting_escrow_delegation) => match validate(voting_escrow_delegation) {
            Ok(a) => {
                cfg.voting_escrow_delegation = Some(a);
            },
            Err(e) => {
                return Err(e);
            },
        },
        None => {},
    }
    Ok(cfg)
}

/// Migrate config from V2.0.0
pub fn migrate_configs_from_v200<F: Fn(&String) -> Result<Addr, StdError>>(
    cfg_200: ConfigV200,
    msg: &MigrateMsg,
    validate: F,
) -> (res: Result<Config, StdError>)
    requires
        may_validate(*msg, validate),
    ensures
        delegation_applied(cfg_200.upgraded(), *msg, validate, res),
        cfg_200.alloc_points_consistent() ==> (res matches Ok(c) ==> c.alloc_points_consistent()),
        res matches Ok(c) ==> {
            &&& c.owner == cfg_200.owner
            &&& c.factory == cfg_200.factory
            &&& c.generator_controller == cfg_200.generator_controller
            &&& c.voting_escrow == cfg_200.voting_escrow
            &&& c.tokens_per_block == cfg_200.tokens_per_block
            &&& c.total_alloc_point == cfg_200.total_alloc_point
            &&& c.start_block == cfg_200.start_block
            &&& c.vesting_contract == cfg_200.vesting_contract
            &&& c.active_pools == cfg_200.active_pools
            &&& c.blocked_tokens_list == cfg_200.blocked_tokens_list
            &&& c.guardian == cfg_200.guardian
            &&& c.checkpoint_generator_limit == cfg_200.checkpoint_generator_limit
            &&& c.roto_token == (AssetInfo::Token { contract_addr: cfg_200.roto_token })
        },
        msg.voting_escrow_delegation is None ==> (res matches Ok(c) && c.voting_escrow_delegation is None),
        msg.voting_escrow_delegation matches Some(d) ==> match res {
            Ok(c) => c.voting_escrow_delegation matches Some(a) && validate.ensures((&d,), Ok(a)),
            Err(e) => validate.ensures((&d,), Err(e)),
        },
{
    let cfg = Config {
        owner: cfg_200.owner,
        factory: cfg_200.factory,
        generator_controller: cfg_200.generator_controller,
        voting_escrow: cfg_200.voting_escrow,
        voting_escrow_delegation: None,
        roto_token: token_asset_info(cfg_200.roto_token),
        tokens_per_block: cfg_200.tokens_per_block,
        total_alloc_point: cfg_200.total_alloc_point,
        start_block: cfg_200.start_block,
        vesting_contract: cfg_200.vesting_contract,
        active_pools: cfg_200.active_pools,
        guardian: cfg_200.guardian,
        blocked_tokens_list: cfg_200.blocked_tokens_list,
        checkpoint_generator_limit: cfg_200.checkpoint_generator_limit,
    };
    apply_migrate_msg(cfg, msg, validate)
}

/// Migrate config from V2.1.0
pub fn migrate_configs_from_v210<F: Fn(&String) -> Result<Addr, StdError>>(
    cfg_210: ConfigV210,
    msg: &MigrateMsg,
    validate: F,
) -> (res: Result<Config, StdError>)
    requires
        may_validate(*msg, validate),
    ensures
        delegation_applied(cfg_210.upgraded(), *msg, validate, res),
        cfg_210.alloc_points_consistent() ==> (res matches Ok(c) ==> c.alloc_points_consistent()),
        res matches Ok(c) ==> {
            &&& c.owner == cfg_210.owner
            &&& c.factory == cfg_210.factory
            &&& c.generator_controller == cfg_210.generator_controller
            &&& c.voting_escrow == cfg_210.voting_escrow
            &&& c.tokens_per_block == cfg_210.tokens_per_block
            &&& c.total_alloc_point == cfg_210.total_alloc_point
            &&& c.start_block == cfg_210.start_block
            &&& c.vesting_contract == cfg_210.vesting_contract
            &&& c.active_pools == cfg_210.active_pools
            &&& c.blocked_tokens_list == cfg_210.blocked_tokens_list
            &&& c.guardian == cfg_210.guardian
            &&& c.checkpoint_generator_limit == cfg_210.checkpoint_generator_limit
            &&& c.roto_token == (AssetInfo::Token { contract_addr: cfg_210.roto_token })
        },
        msg.voting_escrow_delegation is None ==> (res matches Ok(c) && c.voting_escrow_delegation is None),
        msg.voting_escrow_delegation matches Some(d) ==> match res {
            Ok(c) => c.voting_escrow_delegation matches Some(a) && validate.ensures((&d,), Ok(a)),
            Err(e) => validate.ensures((&d,), Err(e)),
        },
{
    let cfg = Config {
        owner: cfg_210.owner,
        factory: cfg_210.factory,
        generator_controller: cfg_210.generator_controller,
        voting_escrow: cfg_210.voting_escrow,
        voting_escrow_delegation: None,
        roto_token: token_asset_info(cfg_210.roto_token),
        tokens_per_block: cfg_210.tokens_per_block,
        total_alloc_point: cfg_210.total_alloc_point,
        start_block: cfg_210.start_block,
        vesting_contract: cfg_210.vesting_contract,
        active_pools: cfg_210.active_pools,
        blocked_tokens_list: cfg_210.blocked_tokens_list,
        guardian: cfg_210.guardian,
        checkpoint_generator_limit: cfg_210.checkpoint_generator_limit,
    };
    apply_migrate_msg(cfg, msg, validate)
}

/// Migrate config from V2.2.0
pub fn migrate_configs_from_v220<F: Fn(&String) -> Result<Addr, StdError>>(
    cfg_220: ConfigV220,
    msg: &MigrateMsg,
    validate: F,
) -> (res: Result<Config, StdError>)
    requires
        may_validate(*msg, validate),
    ensures
        delegation_applied(cfg_220.upgraded(), *msg, validate, res),
        cfg_220.alloc_points_consistent() ==> (res matches Ok(c) ==> c.alloc_points_consistent()),
        res matches Ok(c) ==> {
            &&& c.owner == cfg_220.owner
            &&& c.factory == cfg_220.factory
            &&& c.generator_controller == cfg_220.generator_controller
            &&& c.voting_escrow == cfg_220.voting_escrow
            &&& c.tokens_per_block == cfg_220.tokens_per_block
            &&& c.total_alloc_point == cfg_220.total_alloc_point
            &&& c.start_block == cfg_220.start_block
            &&& c.vesting_contract == cfg_220.vesting_contract
            &&& c.active_pools == cfg_220.active_pools
            &&& c.blocked_tokens_list == cfg_220.blocked_tokens_list
            &&& c.guardian == cfg_220.guardian
            &&& c.checkpoint_generator_limit == cfg_220.checkpoint_generator_limit
            &&& c.roto_token == cfg_220.roto_token
        },
        msg.voting_escrow_delegation is None ==> (res matches Ok(c) && c.voting_escrow_delegation is None),
        msg.voting_escrow_delegation matches Some(d) ==> match res {
            Ok(c) => c.voting_escrow_delegation matches Some(a) && validate.ensures((&d,), Ok(a)),
            Err(e) => validate.ensures((&d,), Err(e)),
        },
{
    let cfg = Config {
        owner: cfg_220.owner,
        factory: cfg_220.factory,
        generator_controller: cfg_220.generator_controller,
        voting_escrow: cfg_220.voting_escrow,
        voting_escrow_delegation: None,
        roto_token: cfg_220.roto_token,
        tokens_per_block: cfg_220.tokens_per_block,
        total_alloc_point: cfg_220.total_alloc_point,
        start_block: cfg_220.start_block,
        vesting_contract: cfg_220.vesting_contract,
        active_pools: cfg_220.active_pools,
        blocked_tokens_list: cfg_220.blocked_tokens_list,
        guardian: cfg_220.guardian,
        checkpoint_generator_limit: cfg_220.checkpoint_generator_limit,
    };
    apply_migrate_msg(cfg, msg, validate)
}

/// A v2.0.0 configuration migrates to the same configuration as the v2.1.0 one that
/// holds the same fields without the reward proxy list.
pub proof fn lemma_v200_migrates_like_v210(cfg_200: ConfigV200)
    ensures
        cfg_200.upgraded() == cfg_200.without_reward_proxies().upgraded(),
{
}

/// A v2.1.0 configuration migrates to the same configuration as the v2.2.0 one that
/// holds the same fields with the ROTO token given as its asset information.
pub proof fn lemma_v210_migrates_like_v220(cfg_210: ConfigV210)
    ensures
        cfg_210.upgraded() == cfg_210.with_roto_asset().upgraded(),
{
}

/// Applying a migration message changes nothing but the voting escrow delegation, and
/// keeps the total allocation points equal to the sum over the active pools when they
/// were so before.
pub proof fn lemma_migrate_msg_changes_only_delegation<F: Fn(&String) -> Result<Addr, StdError>>(
    base: Config,
    msg: MigrateMsg,
    validate: F,
    res: Result<Config, StdError>,
)
    requires
        delegation_applied(base, msg, validate, res),
    ensures
        res matches Ok(c) ==> c == with_delegation(base, c.voting_escrow_delegation),
        res matches Ok(c) ==> (base.alloc_points_consistent() <==> c.alloc_points_consistent()),
{
}

/// Migrating a v2.0.0 configuration keeps every stored field and turns its ROTO token address into that token's asset information;
/// a message that names no voting escrow delegation makes it succeed with none, and a
/// named one is set to what the validator returned for it, or its error is returned.
pub proof fn lemma_v200_keeps_stored_fields<F: Fn(&String) -> Result<Addr, StdError>>(
    cfg_200: ConfigV200,
    msg: MigrateMsg,
    validate: F,
    res: Result<Config, StdError>,
)
    requires
        delegation_applied(cfg_200.upgraded(), msg, validate, res),
    ensures
        res matches Ok(c) ==> {
            &&& c.owner == cfg_200.owner
            &&& c.factory == cfg_200.factory
            &&& c.generator_controller == cfg_200.generator_controller
            &&& c.voting_escrow == cfg_200.voting_escrow
            &&& c.tokens_per_block == cfg_200.tokens_per_block
            &&& c.total_alloc_point == cfg_200.total_alloc_point
            &&& c.start_block == cfg_200.start_block
            &&& c.vesting_contract == cfg_200.vesting_contract
            &&& c.active_pools == cfg_200.active_pools
            &&& c.blocked_tokens_list == cfg_200.blocked_tokens_list
            &&& c.guardian == cfg_200.guardian
            &&& c.checkpoint_generator_limit == cfg_200.checkpoint_generator_limit
            &&& c.roto_token == (AssetInfo::Token { contract_addr: cfg_200.roto_token })
        },
        msg.voting_escrow_delegation is None ==> (res matches Ok(c) && c.voting_escrow_delegation is None),
        msg.voting_escrow_delegation matches Some(d) ==> match res {
            Ok(c) => c.voting_escrow_delegation matches Some(a) && validate.ensures((&d,), Ok(a)),
            Err(e) => validate.ensures((&d,), Err(e)),
        },
{
}

/// Migrating a v2.1.0 configuration keeps every stored field and turns its ROTO token address into that token's asset information;
/// a message that names no voting escrow delegation makes it succeed with none, and a
/// named one is set to what the validator returned for it, or its error is returned.
pub proof fn lemma_v210_keeps_stored_fields<F: Fn(&String) -> Result<Addr, StdError>>(
    cfg_210: ConfigV210,
    msg: MigrateMsg,
    validate: F,
    res: Result<Config, StdError>,
)
    requires
        delegation_applied(cfg_210.upgraded(), msg, validate, res),
    ensures
        res matches Ok(c) ==> {
            &&& c.owner == cfg_210.owner
            &&& c.factory == cfg_210.factory
            &&& c.generator_controller == cfg_210.generator_controller
            &&& c.voting_escrow == cfg_210.voting_escrow
            &&& c.tokens_per_block == cfg_210.tokens_per_block
            &&& c.total_alloc_point == cfg_210.total_alloc_point
            &&& c.start_block == cfg_210.start_block
            &&& c.vesting_contract == cfg_210.vesting_contract
            &&& c.active_pools == cfg_210.active_pools
            &&& c.blocked_tokens_list == cfg_210.blocked_tokens_list
            &&& c.guardian == cfg_210.guardian
            &&& c.checkpoint_generator_limit == cfg_210.checkpoint_generator_limit
            &&& c.roto_token == (AssetInfo::Token { contract_addr: cfg_210.roto_token })
        },
        msg.voting_escrow_delegation is None ==> (res matches Ok(c) && c.voting_escrow_delegation is None),
        msg.voting_escrow_delegation matches Some(d) ==> match res {
            Ok(c) => c.voting_escrow_delegation matches Some(a) && validate.ensures((&d,), Ok(a)),
            Err(e) => validate.ensures((&d,), Err(e)),
        },
{
}

/// Migrating a v2.2.0 configuration keeps every stored field and keeps its ROTO token asset;
/// a message that names no voting escrow delegation makes it succeed with none, and a
/// named one is set to what the validator returned for it, or its error is returned.
pub proof fn lemma_v220_keeps_stored_fields<F: Fn(&String) -> Result<Addr, StdError>>(
    cfg_220: ConfigV220,
    msg: MigrateMsg,
    validate: F,
    res: Result<Config, StdError>,
)
    requires
        delegation_applied(cfg_220.upgraded(), msg, validate, res),
    ensures
        res matches Ok(c) ==> {
            &&& c.owner == cfg_220.owner
            &&& c.factory == cfg_220.factory
            &&& c.generator_controller == cfg_220.generator_controller
            &&& c.voting_escrow == cfg_220.voting_escrow
            &&& c.tokens_per_block == cfg_220.tokens_per_block
            &&& c.total_alloc_point == cfg_220.total_alloc_point
            &&& c.start_block == cfg_220.start_block
            &&& c.vesting_contract == cfg_220.vesting_contract
            &&& c.active_pools == cfg_220.active_pools
            &&& c.blocked_tokens_list == cfg_220.blocked_tokens_list
            &&& c.guardian == cfg_220.guardian
            &&& c.checkpoint_generator_limit == cfg_220.checkpoint_generator_limit
            &&& c.roto_token == cfg_220.roto_token
        },
        msg.voting_escrow_delegation is None ==> (res matches Ok(c) && c.voting_escrow_delegation is None),
        msg.voting_escrow_delegation matches Some(d) ==> match res {
            Ok(c) => c.voting_escrow_delegation matches Some(a) && validate.ensures((&d,), Ok(a)),
            Err(e) => validate.ensures((&d,), Err(e)),
        },
{
}

} // verus!
