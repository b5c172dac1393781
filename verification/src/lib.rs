//! A fractional-ownership ledger for unique music assets.
//!
//! The library tracks registered music assets, the ownership fractions minted
//! against each asset's fixed slot capacity, a monotonic play counter per
//! asset, and a platform-held reward pool. Accrued plays are settled into
//! reward units through a two-phase protocol: a redemption tentatively debits
//! the pool and records a pending settlement, and a later callback either
//! finalizes the settlement (consuming the covered plays) or rolls it back
//! (restoring the pool). The external value-transfer and identity
//! collaborators are the host's concern; every operation here takes the
//! caller's identity as a plain argument and returns the requests the host
//! must perform.
//!
//! If a settlement's outcome never arrives, its reservation stays pending:
//! further redemptions on that asset report [`PlatformError::Indeterminate`]
//! rather than guessing, and an operator reconciles the settlement by
//! reporting the true outcome through the settlement callbacks.

pub mod identity;
pub mod laws;
pub mod model;
pub mod platform;
pub mod rewards;

pub use identity::Identity;
pub use model::SettlementStage;
pub use platform::Fraction;
pub use platform::MusicNFT;
pub use platform::MusicPlatform;
pub use rewards::MawjatToken;
pub use rewards::MintRequest;
pub use rewards::PendingSettlement;
pub use rewards::StorageRequest;

use vstd::prelude::*;

verus! {

/// Number of plays required to earn one reward unit (the reward quantum).
pub const PLAYS_PER_REWARD: u64 = 10;

/// Pool settlement units paid out per reward unit.
pub const REWARD_AMOUNT: u128 = 1;

/// Every way an operation on the platform can be refused.
///
/// Local validation failures leave the platform unchanged; `ExternalCallFailed`
/// reports a settlement rollback that has already restored the pool.
#[derive(Clone, Copy, PartialEq, Eq, Structural, Debug)]
pub enum PlatformError {
    /// The named asset (or in-flight settlement) is not registered.
    NotFound,
    /// An asset with this identifier is already registered.
    AlreadyExists,
    /// The caller lacks the capability the operation demands.
    PermissionDenied,
    /// No fraction slots remain on the asset.
    Exhausted,
    /// A fraction percentage lies outside the allowed range.
    InvalidInput,
    /// The reward pool cannot cover the requested reservation.
    InsufficientPool,
    /// The external value-transfer collaborator reported failure; the
    /// tentative reservation has been rolled back.
    ExternalCallFailed,
    /// A pending settlement for the asset is still awaiting its outcome.
    Indeterminate,
}

} // verus!
