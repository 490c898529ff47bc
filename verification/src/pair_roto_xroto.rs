//! Parameters of the ROTO-xROTO pool.
use cosmwasm_std::{Addr, StdError};
use vstd::prelude::*;

verus! {

/// Errors of the ROTO-xROTO pool that arise here.
#[derive(Debug, PartialEq)]
pub enum ContractError {
    /// A standard error, such as a failed address validation.
    Std(StdError),
}

/// This structure stores a ROTO-xROTO pool's params.
#[derive(Debug, PartialEq, Eq)]
pub struct Params {
    /// ROTO token contract address.
    pub roto_addr: Addr,
    /// xROTO token contract address.
    pub xroto_addr: Addr,
    /// Rotosports Staking contract address.
    pub staking_addr: Addr,
}

/// This structure stores a ROTO-xROTO pool's init params.
#[derive(Debug, PartialEq, Eq)]
pub struct InitParams {
    /// ROTO token contract address.
    pub roto_addr: String,
    /// xROTO token contract address.
    pub xroto_addr: String,
    /// Rotosports Staking contract address.
    pub staking_addr: String,
}

/// This structure describes a migration message.
/// We currently take no arguments for migrations.
#[derive(Debug, PartialEq, Eq)]
pub struct MigrateMsg {}

/// `res` is what validating the three addresses of `init` in turn gives: the three
/// validated addresses when each validation succeeds, and otherwise the error of the
/// first validation that fails, the earlier ones having succeeded.
pub open spec fn validated_params<F: Fn(&String) -> Result<Addr, StdError>>(
    init: InitParams,
    validate: F,
    res: Result<Params, ContractError>,
) -> bool {
    match res {
        Ok(p) => {
            &&& validate.ensures((&init.roto_addr,), Ok(p.roto_addr))
            &&& validate.ensures((&init.xroto_addr,), Ok(p.xroto_addr))
            &&& validate.ensures((&init.staking_addr,), Ok(p.staking_addr))
        },
        Err(ContractError::Std(e)) => {
            ||| validate.ensures((&init.roto_addr,), Err(e))
            ||| {
                &&& exists|a: Addr| #[trigger] validate.ensures((&init.roto_addr,), Ok(a))
                &&& validate.ensures((&init.xroto_addr,), Err(e))
            }
            ||| {
                &&& exists|a: Addr| #[trigger] validate.ensures((&init.roto_addr,), Ok(a))
                &&& exists|b: Addr| #[trigger] validate.ensures((&init.xroto_addr,), Ok(b))
                &&& validate.ensures((&init.staking_addr,), Err(e))
            }
        },
    }
}

impl InitParams {
    /// Validates the three addresses, in the order ROTO token, xROTO token, staking
    /// contract, with `validate` (the chain's address validation), and stops at the
    /// first that fails.
    pub fn try_into_params<F: Fn(&String) -> Result<Addr, StdError>>(self, validate: F) -> (res:
        Result<Params, ContractError>)
        requires
            validate.requires((&self.roto_addr,)),
            validate.requires((&self.xroto_addr,)),
            validate.requires((&self.staking_addr,)),
        ensures
            validated_params(self, validate, res),
            res matches Ok(p) ==> validate.ensures((&self.roto_addr,), Ok(p.roto_addr)),
            res matches Ok(p) ==> validate.ensures((&self.xroto_addr,), Ok(p.xroto_addr)),
            res matches Ok(p) ==> validate.ensures((&self.staking_addr,), Ok(p.staking_addr)),
            (forall|r: Result<Addr, StdError>| #[trigger] validate.ensures((&self.roto_addr,), r) ==> r is Err)
                ==> res is Err,
    {
        let roto_addr = match validate(&self.roto_addr) {
            Ok(a) => a,
            Err(e) => return Err(ContractError::Std(e)),
        };
        let xroto_addr = match validate(&self.xroto_addr) {
            Ok(a) => a,
            Err(e) => return Err(ContractError::Std(e)),
        };
        let staking_addr = match validate(&self.staking_addr) {
            Ok(a) => a,
            Err(e) => return Err(ContractError::Std(e)),
        };
        Ok(Params { roto_addr, xroto_addr, staking_addr })
    }
}

/// Validated parameters hold, field by field, what the validator returned for the
/// matching init address; and when the validator rejects the ROTO address whatever it
/// is asked, no parameters come out, the error being one it reported for that address.
pub proof fn lemma_params_follow_validation<F: Fn(&String) -> Result<Addr, StdError>>(
    init: InitParams,
    validate: F,
    res: Result<Params, ContractError>,
)
    requires
        validated_params(init, validate, res),
    ensures
        res matches Ok(p) ==> validate.ensures((&init.roto_addr,), Ok(p.roto_addr)),
        res matches Ok(p) ==> validate.ensures((&init.xroto_addr,), Ok(p.xroto_addr)),
        res matches Ok(p) ==> validate.ensures((&init.staking_addr,), Ok(p.staking_addr)),
        (forall|r: Result<Addr, StdError>| #[trigger] validate.ensures((&init.roto_addr,), r) ==> r is Err)
            ==> (res matches Err(ContractError::Std(e)) && validate.ensures((&init.roto_addr,), Err(e))),
{
    if res is Err {
        let e = res->Err_0->Std_0;
        if !validate.ensures((&init.roto_addr,), Err(e)) {
            let a = choose|a: Addr| validate.ensures((&init.roto_addr,), Ok(a));
            assert(validate.ensures((&init.roto_addr,), Ok::<Addr, StdError>(a)));
        }
    } else {
        assert(validate.ensures((&init.roto_addr,), Ok::<Addr, StdError>(res->Ok_0.roto_addr)));
    }
}

} // verus!
