//! Assets and pair descriptions shared by the contracts.
use cosmwasm_std::Addr;
use vstd::prelude::*;

verus! {

/// An asset: either a CW20 token, identified by its contract address, or a native
/// token, identified by its denomination.
#[derive(Debug, PartialEq, Eq)]
pub enum AssetInfo {
    /// A CW20 token.
    Token { contract_addr: Addr },
    /// A native token.
    NativeToken { denom: String },
}

/// The kinds of pools the factory can create.
#[derive(Debug, PartialEq, Eq)]
pub enum PairType {
    /// Constant product (x*y=k) pool.
    Xyk {},
    /// Stableswap pool.
    Stable {},
    /// A pool type named by a string.
    Custom(String),
}

/// What a pair contract says about itself.
#[derive(Debug, PartialEq, Eq)]
pub struct PairInfo {
    /// Asset information for the assets in the pool.
    pub asset_infos: Vec<AssetInfo>,
    /// Pair contract address.
    pub contract_addr: Addr,
    /// Pair LP token address.
    pub liquidity_token: Addr,
    /// The pool type.
    pub pair_type: PairType,
}

/// The asset information of the CW20 token at `contract_addr`.
pub fn token_asset_info(contract_addr: Addr) -> (info: AssetInfo)
    ensures
        info == (AssetInfo::Token { contract_addr }),
{
    AssetInfo::Token { contract_addr }
}

} // verus!
