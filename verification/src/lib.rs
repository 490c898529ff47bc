//! Configuration types of the Rotosports contracts and the pure logic that builds
//! them: turning instantiation parameters into validated pool parameters, and the
//! storage migrations of the generator and concentrated-pair configurations.
//!
//! Reading and writing contract storage is left to the caller; every function here
//! takes the stored value and returns the value to store.

pub mod types;
pub mod asset;
pub mod pair_roto_xroto;
pub mod generator;
pub mod pair_concentrated;
