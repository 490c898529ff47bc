use cosmwasm_std::Addr;
use rotosports_config::asset::{token_asset_info, AssetInfo};

#[test]
fn token_asset_info_wraps_the_address() {
    assert_eq!(
        token_asset_info(Addr::unchecked("roto-token")),
        AssetInfo::Token { contract_addr: Addr::unchecked("roto-token") }
    );
}
