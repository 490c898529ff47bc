//! Types of `cosmwasm_std` that the library carries through its logic unchanged.
use vstd::prelude::*;

verus! {

/// `cosmwasm_std::Addr`, a validated human-readable address. The library never looks
/// inside one: it only moves addresses from one configuration into another.
#[verifier::external_type_specification]
#[verifier::external_body]
pub struct ExAddr(cosmwasm_std::Addr);

/// `cosmwasm_std::StdError`, the error that address validation reports. The library
/// hands it on to its caller as it came.
#[verifier::external_type_specification]
#[verifier::external_body]
pub struct ExStdError(cosmwasm_std::StdError);

} // verus!
