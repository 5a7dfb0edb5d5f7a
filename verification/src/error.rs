use vstd::prelude::*;

verus! {

/// The closed set of reasons a command can fail. Every failure is local and
/// non-fatal: the world and the player are left exactly as before the call.
#[derive(Clone, Copy, PartialEq, Eq, Structural, Debug)]
pub enum Error {
    /// A spawn was issued while the player is already alive.
    AlreadyAlive,
    /// A command that needs a live entity was issued while not alive.
    NotAlive,
    /// The requested entity type may not be spawned by this player class.
    IneligibleType,
    /// The requested entity type is not a valid upgrade right now.
    IneligibleUpgrade,
    /// A command was issued in the same tick as an upgrade.
    JustUpgraded,
    /// An armament index at or beyond the armament count.
    OutOfBoundsIndex,
    /// The armament's reload timer has not reached zero.
    NotReloaded,
    /// The armament cannot fire while the platform is submerged.
    Submerged,
    /// The turret's current angle is outside its azimuth limits.
    OutsideAzimuth,
    /// A target position lies beyond the allowed range.
    TooFar,
    /// The player's score cannot cover the cost.
    InsufficientFunds,
    /// A scalar from the outside was not finite.
    NotFinite,
    /// No free space was found to place a new entity.
    NoSpace,
}

} // verus!
