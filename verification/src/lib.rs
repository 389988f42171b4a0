//! Canonical identity, monetary, and temporal parameters for a
//! proof-of-stake chain runtime.
//!
//! The crate defines the semantic primitive types shared by every runtime
//! module, derives the block-count-based time units from the base block
//! time, derives the currency denominations and the fixed mining reward
//! from the genesis allocations, and offers three narrow capability
//! interfaces (signature verification, payment limit, account creation)
//! with permissive default implementations on the unit type.

use vstd::prelude::*;

pub mod currency;
pub mod identity;
pub mod interfaces;
pub mod time;

verus! {

/// An index to a block.
pub type BlockNumber = u32;

/// Balance of an account, counted in the smallest indivisible unit.
pub type Balance = u128;

/// Type used for expressing a wall-clock moment, in milliseconds.
pub type Moment = u64;

/// A timestamp: milliseconds since the unix epoch.
pub type Timestamp = u64;

/// Index of a transaction in the chain.
pub type Index = u32;

/// The type for looking up accounts.
pub type AccountIndex = u32;

/// The native currency's base denomination: `10^18` smallest units.
pub const DPR: Balance = 1_000_000_000_000_000_000;

/// A configuration defect detected when the chain parameters are
/// validated at initialization. Startup must halt on either variant.
#[derive(Clone, Copy, Debug, PartialEq, Eq, Structural)]
pub enum ConfigError {
    /// The configured block time is below one second, so no whole
    /// second fits into a block and the time units are undefined.
    SubSecondBlockTime,
    /// The genesis allocations sum to more than the total supply, so
    /// the mining reward would underflow.
    GenesisAllocationExceedsSupply,
}

} // verus!
