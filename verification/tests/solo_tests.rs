use solbombs::AccountKey;
use solbombs::GameState;
use solbombs::SolbombsError;
use solbombs::Treasury;
use solbombs::cash_out;
use solbombs::resolve_loss;
use solbombs::reveal_safe;
use solbombs::start_solo;

fn key(n: u128) -> AccountKey {
    AccountKey { hi: 0, lo: n }
}

#[test]
fn start_solo_creates_game_and_credits_treasury() {
    let mut t = Treasury { balance: 500_000 };
    let g = start_solo(key(7), 3, 1_000_000, 5, &mut t).unwrap();
    assert_eq!(t.balance, 1_500_000);
    assert_eq!(g.authority, key(7));
    assert_eq!(g.game_nonce, 3);
    assert_eq!(g.wager_lamports, 1_000_000);
    assert_eq!(g.bombs, 5);
    assert_eq!(g.safe_revealed, 0);
    assert!(!g.resolved);
}

#[test]
fn start_solo_rejects_small_wager() {
    let mut t = Treasury { balance: 0 };
    assert_eq!(
        start_solo(key(1), 0, 9_999, 5, &mut t),
        Err(SolbombsError::WagerTooSmall)
    );
    assert_eq!(t.balance, 0);
}

#[test]
fn start_solo_rejects_bad_bomb_count() {
    let mut t = Treasury { balance: 0 };
    assert_eq!(
        start_solo(key(1), 0, 10_000, 0, &mut t),
        Err(SolbombsError::InvalidBombCount)
    );
    assert_eq!(
        start_solo(key(1), 0, 10_000, 25, &mut t),
        Err(SolbombsError::InvalidBombCount)
    );
    assert_eq!(t.balance, 0);
}

#[test]
fn start_solo_rejects_treasury_overflow() {
    let mut t = Treasury { balance: u64::MAX };
    assert_eq!(
        start_solo(key(1), 0, 10_000, 5, &mut t),
        Err(SolbombsError::MathOverflow)
    );
    assert_eq!(t.balance, u64::MAX);
}

#[test]
fn reveal_safe_counts_up_and_stops_at_max() {
    let mut t = Treasury { balance: 0 };
    let mut g = start_solo(key(2), 0, 10_000, 24, &mut t).unwrap();
    assert_eq!(reveal_safe(&mut g, key(2)), Ok(()));
    assert_eq!(g.safe_revealed, 1);
    // Only one safe cell exists with 24 bombs.
    assert_eq!(
        reveal_safe(&mut g, key(2)),
        Err(SolbombsError::TooManySafeRevealed)
    );
    assert_eq!(g.safe_revealed, 1);
}

#[test]
fn reveal_safe_rejects_wrong_caller() {
    let mut t = Treasury { balance: 0 };
    let mut g = start_solo(key(2), 0, 10_000, 5, &mut t).unwrap();
    assert_eq!(reveal_safe(&mut g, key(3)), Err(SolbombsError::BadAuthority));
    assert_eq!(g.safe_revealed, 0);
}

#[test]
fn cash_out_requires_a_reveal() {
    let mut t = Treasury { balance: 0 };
    let mut g = start_solo(key(2), 0, 10_000, 5, &mut t).unwrap();
    assert_eq!(
        cash_out(&mut g, key(2), &mut t),
        Err(SolbombsError::NoSafeRevealed)
    );
    assert!(!g.resolved);
    assert_eq!(t.balance, 10_000);
}

#[test]
fn cash_out_fails_when_treasury_cannot_cover() {
    let mut t = Treasury { balance: 0 };
    let mut g = start_solo(key(2), 0, 10_000, 1, &mut t).unwrap();
    reveal_safe(&mut g, key(2)).unwrap();
    // Payout would be floor(10_000 * 10_312 / 10_000) = 10_312 > 10_000.
    assert_eq!(
        cash_out(&mut g, key(2), &mut t),
        Err(SolbombsError::InsufficientTreasury)
    );
    assert!(!g.resolved);
    assert_eq!(t.balance, 10_000);
}

#[test]
fn end_to_end_two_reveals_three_bombs() {
    let mut t = Treasury { balance: 10_000_000 };
    let mut g = start_solo(key(9), 1, 1_000_000, 3, &mut t).unwrap();
    assert_eq!(t.balance, 11_000_000);
    reveal_safe(&mut g, key(9)).unwrap();
    reveal_safe(&mut g, key(9)).unwrap();
    // multiplier for (2, 3) is 12_857; payout = floor(1_000_000 * 12_857 / 10_000)
    let payout = cash_out(&mut g, key(9), &mut t).unwrap();
    assert_eq!(payout, 1_285_700);
    assert_eq!(t.balance, 11_000_000 - 1_285_700);
    assert!(g.resolved);
}

#[test]
fn cash_out_with_capped_multiplier() {
    let mut t = Treasury { balance: 1_000_000 };
    let mut g = GameState {
        authority: key(4),
        game_nonce: 0,
        wager_lamports: 50_000,
        bombs: 24,
        safe_revealed: 1,
        resolved: false,
    };
    // One reveal at 24 bombs pays the capped multiplier.
    let payout = cash_out(&mut g, key(4), &mut t).unwrap();
    assert_eq!(payout, 50_000 * 65_535 / 10_000);
    assert_eq!(t.balance, 1_000_000 - payout);
}

#[test]
fn resolve_loss_keeps_wager_in_treasury() {
    let mut t = Treasury { balance: 0 };
    let mut g = start_solo(key(2), 0, 10_000, 5, &mut t).unwrap();
    reveal_safe(&mut g, key(2)).unwrap();
    assert_eq!(resolve_loss(&mut g, key(2)), Ok(()));
    assert!(g.resolved);
    assert_eq!(t.balance, 10_000);
}

#[test]
fn resolve_loss_rejects_wrong_caller() {
    let mut t = Treasury { balance: 0 };
    let mut g = start_solo(key(2), 0, 10_000, 5, &mut t).unwrap();
    assert_eq!(resolve_loss(&mut g, key(8)), Err(SolbombsError::BadAuthority));
    assert!(!g.resolved);
}

#[test]
fn resolved_game_rejects_every_further_operation() {
    let mut t = Treasury { balance: 10_000_000 };
    let mut g = start_solo(key(2), 0, 10_000, 5, &mut t).unwrap();
    reveal_safe(&mut g, key(2)).unwrap();
    cash_out(&mut g, key(2), &mut t).unwrap();
    let balance_after = t.balance;
    let snapshot = g;
    assert_eq!(
        reveal_safe(&mut g, key(2)),
        Err(SolbombsError::AlreadyResolved)
    );
    assert_eq!(
        cash_out(&mut g, key(2), &mut t),
        Err(SolbombsError::AlreadyResolved)
    );
    assert_eq!(
        resolve_loss(&mut g, key(2)),
        Err(SolbombsError::AlreadyResolved)
    );
    assert_eq!(g, snapshot);
    assert_eq!(t.balance, balance_after);
}

#[test]
fn lost_then_resolved_game_rejects_every_further_operation() {
    let mut t = Treasury { balance: 0 };
    let mut g = start_solo(key(2), 0, 10_000, 5, &mut t).unwrap();
    resolve_loss(&mut g, key(2)).unwrap();
    assert_eq!(
        reveal_safe(&mut g, key(2)),
        Err(SolbombsError::AlreadyResolved)
    );
    assert_eq!(
        cash_out(&mut g, key(2), &mut t),
        Err(SolbombsError::AlreadyResolved)
    );
    assert_eq!(
        resolve_loss(&mut g, key(2)),
        Err(SolbombsError::AlreadyResolved)
    );
    assert_eq!(t.balance, 10_000);
}
