use vstd::prelude::*;

use crate::MIN_WAGER_LAMPORTS;
use crate::errors::SolbombsError;
use crate::ledger::AccountKey;
use crate::ledger::Treasury;

verus! {

/// One two-party game instance, keyed by `(creator, game_nonce)`. The
/// counterparty is either a human joiner or the automated robot side.
#[derive(Clone, Copy, PartialEq, Eq, Structural, Debug)]
pub struct PvpGameState {
    pub creator: AccountKey,
    pub joiner: AccountKey,
    pub has_joiner: bool,
    pub game_nonce: u8,
    pub wager_lamports: u64,
    pub vs_robot: bool,
    pub resolved: bool,
}

impl PvpGameState {
    /// Well-formedness: the stake meets the minimum, a human joiner and the
    /// robot flag never coexist, and the joiner slot stays the zero address
    /// until a human joins.
    pub open spec fn wf(self) -> bool {
        &&& self.wager_lamports >= MIN_WAGER_LAMPORTS
        &&& !(self.has_joiner && self.vs_robot)
        &&& (!self.has_joiner ==> self.joiner == AccountKey::zero_spec())
    }
}

/// A game with no human joiner is settled as a robot match, whether or not
/// it was ever explicitly converted.
pub open spec fn treating_as_robot(g: PvpGameState) -> bool {
    g.vs_robot || !g.has_joiner
}

/// The full effect of resolving a PvP game: the instance afterwards, the
/// treasury balance afterwards, and the result, where `Ok(None)` is a robot
/// win (the pot stays pooled) and `Ok(Some((payee, pot)))` records the
/// transfer owed to the winner.
pub open spec fn resolve_pvp_spec(
    g: PvpGameState,
    winner_side: u8,
    creator_account: AccountKey,
    joiner_account: AccountKey,
    balance: u64,
) -> (PvpGameState, u64, Result<Option<(AccountKey, u64)>, SolbombsError>) {
    if g.resolved {
        (g, balance, Err(SolbombsError::AlreadyResolved))
    } else if !(winner_side == 0 || winner_side == 1) {
        (g, balance, Err(SolbombsError::InvalidWinner))
    } else if g.wager_lamports * 2 > u64::MAX {
        (g, balance, Err(SolbombsError::MathOverflow))
    } else {
        let pot = (g.wager_lamports * 2) as u64;
        let robot = treating_as_robot(g);
        if robot && winner_side == 1 {
            (PvpGameState { resolved: true, ..g }, balance, Ok(None))
        } else if balance < pot {
            (g, balance, Err(SolbombsError::InsufficientTreasury))
        } else {
            let to_key = if winner_side == 0 {
                creator_account
            } else {
                joiner_account
            };
            let payee_ok = if robot {
                winner_side == 0 && to_key == g.creator
            } else {
                to_key == g.creator || to_key == g.joiner
            };
            if !payee_ok {
                (g, balance, Err(SolbombsError::InvalidWinner))
            } else {
                (
                    PvpGameState { resolved: true, ..g },
                    (balance - pot) as u64,
                    Ok(Some((to_key, pot))),
                )
            }
        }
    }
}

/// Law: a PvP game that never received a human joiner resolves exactly as if
/// it had been explicitly flagged robot: the same result, the same treasury
/// balance, and the same resolved flag, for every winner side.
pub proof fn lemma_implicit_robot_resolution(
    g: PvpGameState,
    winner_side: u8,
    creator_account: AccountKey,
    joiner_account: AccountKey,
    balance: u64,
)
    requires
        !g.vs_robot,
        !g.has_joiner,
    ensures
        ({
            let (g1, b1, r1) = resolve_pvp_spec(g, winner_side, creator_account, joiner_account, balance);
            let (g2, b2, r2) = resolve_pvp_spec(
                PvpGameState { vs_robot: true, ..g },
                winner_side,
                creator_account,
                joiner_account,
                balance,
            );
            b1 == b2 && r1 == r2 && g1.resolved == g2.resolved
        }),
{
}

/// Law: resolution never overdraws the treasury. The balance never rises
/// and never goes below zero: it moves only when a payout is recorded, by
/// exactly the pot, and only when the live balance covered it.
pub proof fn lemma_resolution_solvency(
    g: PvpGameState,
    winner_side: u8,
    creator_account: AccountKey,
    joiner_account: AccountKey,
    balance: u64,
)
    ensures
        ({
            let (g2, b2, r) = resolve_pvp_spec(g, winner_side, creator_account, joiner_account, balance);
            &&& b2 <= balance
            &&& match r {
                Ok(Some((_payee, pot))) => pot <= balance && b2 == balance - pot,
                Ok(None) => b2 == balance,
                Err(_) => b2 == balance,
            }
        }),
{
}

/// Start a PvP game: validate the stake, and for an explicit robot match
/// check up front that the pooled balance can cover the counter stake; then
/// move the creator's wager into the treasury and hand back the fresh
/// instance. On any failure the treasury is untouched.
pub fn start_pvp(
    creator: AccountKey,
    game_nonce: u8,
    wager_lamports: u64,
    vs_robot: bool,
    treasury: &mut Treasury,
) -> (r: Result<PvpGameState, SolbombsError>)
    ensures
        wager_lamports < MIN_WAGER_LAMPORTS ==> (
            r == Err::<PvpGameState, SolbombsError>(SolbombsError::WagerTooSmall)
            && *final(treasury) == *old(treasury)
        ),
        wager_lamports >= MIN_WAGER_LAMPORTS && vs_robot
            && old(treasury).balance < wager_lamports ==> (
            r == Err::<PvpGameState, SolbombsError>(SolbombsError::InsufficientTreasury)
            && *final(treasury) == *old(treasury)
        ),
        wager_lamports >= MIN_WAGER_LAMPORTS
            && (!vs_robot || old(treasury).balance >= wager_lamports)
            && old(treasury).balance + wager_lamports > u64::MAX ==> (
            r == Err::<PvpGameState, SolbombsError>(SolbombsError::MathOverflow)
            && *final(treasury) == *old(treasury)
        ),
        wager_lamports >= MIN_WAGER_LAMPORTS
            && (!vs_robot || old(treasury).balance >= wager_lamports)
            && old(treasury).balance + wager_lamports <= u64::MAX ==> (
            r == Ok::<PvpGameState, SolbombsError>(PvpGameState {
                creator: creator,
                joiner: AccountKey::zero_spec(),
                has_joiner: false,
                game_nonce: game_nonce,
                wager_lamports: wager_lamports,
                vs_robot: vs_robot,
                resolved: false,
            })
            && final(treasury).balance == old(treasury).balance + wager_lamports
        ),
        r is Ok ==> r->Ok_0.wf(),
{
    if wager_lamports < MIN_WAGER_LAMPORTS {
        return Err(SolbombsError::WagerTooSmall);
    }
    if vs_robot {
        if treasury.balance < wager_lamports {
            return Err(SolbombsError::InsufficientTreasury);
        }
    }
    match treasury.credit(wager_lamports) {
        Ok(()) => {}
        Err(e) => {
            return Err(e);
        }
    }
    Ok(PvpGameState {
        creator,
        joiner: AccountKey::zero(),
        has_joiner: false,
        game_nonce,
        wager_lamports,
        vs_robot,
        resolved: false,
    })
}

/// Convert an open human lobby into a robot match, keeping the same instance
/// and wager. Allowed only before any human joins and only while the pooled
/// balance covers the counter stake; no value moves.
pub fn convert_pvp_to_robot(
    game: &mut PvpGameState,
    treasury: &Treasury,
) -> (r: Result<(), SolbombsError>)
    requires
        old(game).wf(),
    ensures
        final(game).wf(),
        old(game).resolved ==> (
            r == Err::<(), SolbombsError>(SolbombsError::AlreadyResolved)
            && *final(game) == *old(game)
        ),
        !old(game).resolved && old(game).has_joiner ==> (
            r == Err::<(), SolbombsError>(SolbombsError::AlreadyHasJoiner)
            && *final(game) == *old(game)
        ),
        !old(game).resolved && !old(game).has_joiner
            && treasury.balance < old(game).wager_lamports ==> (
            r == Err::<(), SolbombsError>(SolbombsError::InsufficientTreasury)
            && *final(game) == *old(game)
        ),
        !old(game).resolved && !old(game).has_joiner
            && treasury.balance >= old(game).wager_lamports ==> (
            r == Ok::<(), SolbombsError>(())
            && *final(game) == (PvpGameState { vs_robot: true, ..*old(game) })
        ),
{
    if game.resolved {
        return Err(SolbombsError::AlreadyResolved);
    }
    if game.has_joiner {
        return Err(SolbombsError::AlreadyHasJoiner);
    }
    if treasury.balance < game.wager_lamports {
        return Err(SolbombsError::InsufficientTreasury);
    }
    game.vs_robot = true;
    Ok(())
}

/// A human joins an open lobby by matching the stored wager, which moves
/// into the treasury; robot games and full lobbies reject the join.
pub fn join_pvp(
    game: &mut PvpGameState,
    joiner: AccountKey,
    treasury: &mut Treasury,
) -> (r: Result<(), SolbombsError>)
    requires
        old(game).wf(),
    ensures
        final(game).wf(),
        old(game).resolved ==> (
            r == Err::<(), SolbombsError>(SolbombsError::AlreadyResolved)
            && *final(game) == *old(game)
            && *final(treasury) == *old(treasury)
        ),
        !old(game).resolved && old(game).vs_robot ==> (
            r == Err::<(), SolbombsError>(SolbombsError::HumanJoinNotAllowedForRobot)
            && *final(game) == *old(game)
            && *final(treasury) == *old(treasury)
        ),
        !old(game).resolved && !old(game).vs_robot && old(game).has_joiner ==> (
            r == Err::<(), SolbombsError>(SolbombsError::AlreadyHasJoiner)
            && *final(game) == *old(game)
            && *final(treasury) == *old(treasury)
        ),
        !old(game).resolved && !old(game).vs_robot && !old(game).has_joiner
            && old(treasury).balance + old(game).wager_lamports > u64::MAX ==> (
            r == Err::<(), SolbombsError>(SolbombsError::MathOverflow)
            && *final(game) == *old(game)
            && *final(treasury) == *old(treasury)
        ),
        !old(game).resolved && !old(game).vs_robot && !old(game).has_joiner
            && old(treasury).balance + old(game).wager_lamports <= u64::MAX ==> (
            r == Ok::<(), SolbombsError>(())
            && *final(game) == (PvpGameState {
                joiner: joiner,
                has_joiner: true,
                ..*old(game)
            })
            && final(treasury).balance == old(treasury).balance + old(game).wager_lamports
        ),
{
    if game.resolved {
        return Err(SolbombsError::AlreadyResolved);
    }
    if game.vs_robot {
        return Err(SolbombsError::HumanJoinNotAllowedForRobot);
    }
    if game.has_joiner {
        return Err(SolbombsError::AlreadyHasJoiner);
    }
    match treasury.credit(game.wager_lamports) {
        Ok(()) => {}
        Err(e) => {
            return Err(e);
        }
    }
    game.joiner = joiner;
    game.has_joiner = true;
    Ok(())
}

/// Resolve a PvP game, `winner_side` 0 for the creator and 1 for the
/// counterparty. A robot win keeps the pot pooled; any human winner must
/// match a stored identity and is owed the doubled wager, paid only if the
/// live balance covers it. The effect equals `resolve_pvp_spec` exactly.
pub fn resolve_pvp(
    game: &mut PvpGameState,
    winner_side: u8,
    creator_account: AccountKey,
    joiner_account: AccountKey,
    treasury: &mut Treasury,
) -> (r: Result<Option<(AccountKey, u64)>, SolbombsError>)
    requires
        old(game).wf(),
    ensures
        final(game).wf(),
        ({
            let (g2, b2, r2) = resolve_pvp_spec(
                *old(game),
                winner_side,
                creator_account,
                joiner_account,
                old(treasury).balance,
            );
            *final(game) == g2 && final(treasury).balance == b2 && r == r2
        }),
{
    if game.resolved {
        return Err(SolbombsError::AlreadyResolved);
    }
    if !(winner_side == 0 || winner_side == 1) {
        return Err(SolbombsError::InvalidWinner);
    }
    let pot: u64 = match game.wager_lamports.checked_mul(2) {
        Some(p) => p,
        None => {
            return Err(SolbombsError::MathOverflow);
        }
    };
    // A game that no human ever joined settles as a robot match.
    let treating_robot: bool = game.vs_robot || !game.has_joiner;
    if treating_robot && winner_side == 1 {
        // Robot wins: the pot stays in the treasury.
        game.resolved = true;
        return Ok(None);
    }
    if treasury.balance < pot {
        return Err(SolbombsError::InsufficientTreasury);
    }
    let to_key: AccountKey = if winner_side == 0 {
        creator_account
    } else {
        joiner_account
    };
    // The recipient must match the stored identities.
    if treating_robot {
        if !(winner_side == 0 && to_key == game.creator) {
            return Err(SolbombsError::InvalidWinner);
        }
    } else {
        if !(to_key == game.creator || to_key == game.joiner) {
            return Err(SolbombsError::InvalidWinner);
        }
    }
    treasury.debit(pot);
    game.resolved = true;
    Ok(Some((to_key, pot)))
}

} // verus!
