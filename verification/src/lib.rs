//! Verified core of the Grant-Stream contracts and the SoroSusu savings circle.
//!
//! Each contract is modelled as a plain state value (what the contract keeps
//! in its instance storage) together with transition functions that decide,
//! update the state and report the token movements the host must perform.
mod account;
pub mod atomic_bridge;
pub mod certificate_minter;
pub mod grant;
pub mod sorususu;
pub mod yield_reserve;

pub use account::Address;
