use vstd::prelude::*;

use crate::MIN_WAGER_LAMPORTS;
use crate::errors::SolbombsError;
use crate::ledger::AccountKey;
use crate::ledger::Treasury;
use crate::multiplier::calculate_multiplier_bps;
use crate::multiplier::multiplier_bps_spec;

verus! {

/// One single-player game instance, keyed by `(authority, game_nonce)` and
/// played against the pooled treasury.
#[derive(Clone, Copy, PartialEq, Eq, Structural, Debug)]
pub struct GameState {
    pub authority: AccountKey,
    pub game_nonce: u8,
    pub wager_lamports: u64,
    pub bombs: u8,
    pub safe_revealed: u8,
    pub resolved: bool,
}

impl GameState {
    /// Well-formedness: established at start and preserved by every
    /// operation. The bomb count stays in [1, 24], the reveal counter never
    /// passes the number of safe cells, and the stake meets the minimum.
    pub open spec fn wf(self) -> bool {
        &&& 1 <= self.bombs <= 24
        &&& self.safe_revealed <= 25 - self.bombs
        &&& self.wager_lamports >= MIN_WAGER_LAMPORTS
    }
}

/// The multiplier owed to a solo game as it stands.
pub open spec fn solo_multiplier(g: GameState) -> u16 {
    multiplier_bps_spec(g.safe_revealed as nat, g.bombs as nat)
}

/// The payout owed for a wager at a given multiplier: the wager itself at
/// par, otherwise wager * multiplier / 10_000 floored and truncated to the
/// balance width.
pub open spec fn payout_lamports(wager: u64, mult_bps: u16) -> u64 {
    if mult_bps == 10_000 {
        wager
    } else {
        ((wager * mult_bps / 10_000) % 0x1_0000_0000_0000_0000) as u64
    }
}

/// The payout a solo game would receive if cashed out as it stands.
pub open spec fn solo_payout(g: GameState) -> u64 {
    payout_lamports(g.wager_lamports, solo_multiplier(g))
}

/// Start a solo game: validate the stake and bomb count, move the wager into
/// the treasury, and hand back the fresh unresolved instance. On any failure
/// the treasury is untouched.
pub fn start_solo(
    payer: AccountKey,
    game_nonce: u8,
    wager_lamports: u64,
    bombs: u8,
    treasury: &mut Treasury,
) -> (r: Result<GameState, SolbombsError>)
    ensures
        wager_lamports < MIN_WAGER_LAMPORTS ==> (
            r == Err::<GameState, SolbombsError>(SolbombsError::WagerTooSmall)
            && *final(treasury) == *old(treasury)
        ),
        wager_lamports >= MIN_WAGER_LAMPORTS && !(1 <= bombs <= 24) ==> (
            r == Err::<GameState, SolbombsError>(SolbombsError::InvalidBombCount)
            && *final(treasury) == *old(treasury)
        ),
        wager_lamports >= MIN_WAGER_LAMPORTS && 1 <= bombs <= 24
            && old(treasury).balance + wager_lamports > u64::MAX ==> (
            r == Err::<GameState, SolbombsError>(SolbombsError::MathOverflow)
            && *final(treasury) == *old(treasury)
        ),
        wager_lamports >= MIN_WAGER_LAMPORTS && 1 <= bombs <= 24
            && old(treasury).balance + wager_lamports <= u64::MAX ==> (
            r == Ok::<GameState, SolbombsError>(GameState {
                authority: payer,
                game_nonce: game_nonce,
                wager_lamports: wager_lamports,
                bombs: bombs,
                safe_revealed: 0,
                resolved: false,
            })
            && final(treasury).balance == old(treasury).balance + wager_lamports
        ),
        r is Ok ==> r->Ok_0.wf(),
{
    if wager_lamports < MIN_WAGER_LAMPORTS {
        return Err(SolbombsError::WagerTooSmall);
    }
    if !(bombs >= 1 && bombs <= 24) {
        return Err(SolbombsError::InvalidBombCount);
    }
    match treasury.credit(wager_lamports) {
        Ok(()) => {}
        Err(e) => {
            return Err(e);
        }
    }
    Ok(GameState {
        authority: payer,
        game_nonce,
        wager_lamports,
        bombs,
        safe_revealed: 0,
        resolved: false,
    })
}

/// Record one safe reveal: only the stored authority may act, only while the
/// game is unresolved, and only while safe cells remain; a resolved game
/// rejects every further reveal unchanged.
pub fn reveal_safe(game: &mut GameState, payer: AccountKey) -> (r: Result<(), SolbombsError>)
    requires
        old(game).wf(),
    ensures
        final(game).wf(),
        old(game).resolved ==> (
            r == Err::<(), SolbombsError>(SolbombsError::AlreadyResolved)
            && *final(game) == *old(game)
        ),
        !old(game).resolved && payer != old(game).authority ==> (
            r == Err::<(), SolbombsError>(SolbombsError::BadAuthority)
            && *final(game) == *old(game)
        ),
        !old(game).resolved && payer == old(game).authority
            && old(game).safe_revealed >= 25 - old(game).bombs ==> (
            r == Err::<(), SolbombsError>(SolbombsError::TooManySafeRevealed)
            && *final(game) == *old(game)
        ),
        !old(game).resolved && payer == old(game).authority
            && old(game).safe_revealed < 25 - old(game).bombs ==> (
            r == Ok::<(), SolbombsError>(())
            && *final(game) == (GameState {
                safe_revealed: (old(game).safe_revealed + 1) as u8,
                ..*old(game)
            })
        ),
{
    if game.resolved {
        return Err(SolbombsError::AlreadyResolved);
    }
    if !(game.authority == payer) {
        return Err(SolbombsError::BadAuthority);
    }
    let max_safe: u8 = 25 - game.bombs;
    if !(game.safe_revealed < max_safe) {
        return Err(SolbombsError::TooManySafeRevealed);
    }
    game.safe_revealed = match game.safe_revealed.checked_add(1) {
        Some(v) => v,
        None => {
            return Err(SolbombsError::MathOverflow);
        }
    };
    Ok(())
}

/// Cash a solo game out: compute the multiplier, pay the owed amount from
/// the treasury if it can cover it, and resolve the instance. The payout is
/// checked against the live balance, so the treasury is never overdrawn.
pub fn cash_out(
    game: &mut GameState,
    payer: AccountKey,
    treasury: &mut Treasury,
) -> (r: Result<u64, SolbombsError>)
    requires
        old(game).wf(),
    ensures
        final(game).wf(),
        old(game).resolved ==> (
            r == Err::<u64, SolbombsError>(SolbombsError::AlreadyResolved)
            && *final(game) == *old(game)
            && *final(treasury) == *old(treasury)
        ),
        !old(game).resolved && payer != old(game).authority ==> (
            r == Err::<u64, SolbombsError>(SolbombsError::BadAuthority)
            && *final(game) == *old(game)
            && *final(treasury) == *old(treasury)
        ),
        !old(game).resolved && payer == old(game).authority
            && old(game).safe_revealed == 0 ==> (
            r == Err::<u64, SolbombsError>(SolbombsError::NoSafeRevealed)
            && *final(game) == *old(game)
            && *final(treasury) == *old(treasury)
        ),
        !old(game).resolved && payer == old(game).authority && old(game).safe_revealed > 0
            && solo_payout(*old(game)) > old(treasury).balance ==> (
            r == Err::<u64, SolbombsError>(SolbombsError::InsufficientTreasury)
            && *final(game) == *old(game)
            && *final(treasury) == *old(treasury)
        ),
        !old(game).resolved && payer == old(game).authority && old(game).safe_revealed > 0
            && solo_payout(*old(game)) <= old(treasury).balance ==> (
            r == Ok::<u64, SolbombsError>(solo_payout(*old(game)))
            && *final(game) == (GameState { resolved: true, ..*old(game) })
            && final(treasury).balance == old(treasury).balance - solo_payout(*old(game))
        ),
{
    if game.resolved {
        return Err(SolbombsError::AlreadyResolved);
    }
    if !(game.authority == payer) {
        return Err(SolbombsError::BadAuthority);
    }
    if game.safe_revealed == 0 {
        return Err(SolbombsError::NoSafeRevealed);
    }

    let multiplier_bps: u16 = match calculate_multiplier_bps(game.safe_revealed, game.bombs) {
        Ok(m) => m,
        Err(e) => {
            return Err(e);
        }
    };

    let payout: u64;
    if multiplier_bps == 10_000 {
        payout = game.wager_lamports;
    } else {
        proof {
            assert((game.wager_lamports as int) * (multiplier_bps as int) <= u128::MAX)
                by (nonlinear_arith)
                requires
                    game.wager_lamports <= u64::MAX,
                    multiplier_bps <= u16::MAX,
            ;
        }
        let wide: u128 = (game.wager_lamports as u128) * (multiplier_bps as u128);
        payout = ((wide / 10_000) % 0x1_0000_0000_0000_0000u128) as u64;
    }

    if treasury.balance < payout {
        return Err(SolbombsError::InsufficientTreasury);
    }
    treasury.debit(payout);
    game.resolved = true;
    Ok(payout)
}

/// Resolve a solo game as a loss: the wager already sits in the treasury, so
/// no value moves; the instance is only marked resolved, permanently.
pub fn resolve_loss(game: &mut GameState, payer: AccountKey) -> (r: Result<(), SolbombsError>)
    requires
        old(game).wf(),
    ensures
        final(game).wf(),
        old(game).resolved ==> (
            r == Err::<(), SolbombsError>(SolbombsError::AlreadyResolved)
            && *final(game) == *old(game)
        ),
        !old(game).resolved && payer != old(game).authority ==> (
            r == Err::<(), SolbombsError>(SolbombsError::BadAuthority)
            && *final(game) == *old(game)
        ),
        !old(game).resolved && payer == old(game).authority ==> (
            r == Ok::<(), SolbombsError>(())
            && *final(game) == (GameState { resolved: true, ..*old(game) })
        ),
{
    if game.resolved {
        return Err(SolbombsError::AlreadyResolved);
    }
    if !(game.authority == payer) {
        return Err(SolbombsError::BadAuthority);
    }
    game.resolved = true;
    Ok(())
}

} // verus!
