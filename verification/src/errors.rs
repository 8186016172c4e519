use vstd::prelude::*;

verus! {

/// Closed error taxonomy of the settlement engine. Every operation either
/// fully succeeds or aborts with one of these kinds and no state change.
#[derive(Clone, Copy, PartialEq, Eq, Structural, Debug)]
pub enum SolbombsError {
    /// Wager below the fixed minimum.
    WagerTooSmall,
    /// Operation attempted on an already-resolved game.
    AlreadyResolved,
    /// Caller identity does not match the stored owner/creator.
    BadAuthority,
    /// A checked arithmetic step overflowed its width.
    MathOverflow,
    /// Bomb count outside [1, 24].
    InvalidBombCount,
    /// Reveal attempted when the counter is already at the safe-cell maximum.
    TooManySafeRevealed,
    /// Cash-out attempted with zero reveals.
    NoSafeRevealed,
    /// Multiplier exceeds what the revealed tiles allow.
    MultiplierTooHigh,
    /// Treasury balance insufficient for the required transfer.
    InsufficientTreasury,
    /// Join or robot conversion attempted after a joiner exists.
    AlreadyHasJoiner,
    /// Human join attempted on a robot-flagged game.
    HumanJoinNotAllowedForRobot,
    /// No joiner present.
    NoJoiner,
    /// Winner side invalid or payee mismatches stored identities.
    InvalidWinner,
}

} // verus!
