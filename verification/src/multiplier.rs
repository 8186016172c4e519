use vstd::prelude::*;

use crate::errors::SolbombsError;

verus! {

/// Fixed-point scale for the survival probability: 1_000_000 stands for 1.0.
pub const PROBABILITY_SCALE: u64 = 1_000_000;

/// House edge in basis points applied to the fair payout: 9_900 keeps 1%.
pub const HOUSE_EDGE_BPS: u64 = 9_900;

/// Fixed-point survival chance after `s` safe reveals on a 25-cell grid with
/// `bombs` bombs: starting from the scale (1.0), each reveal multiplies by
/// (remaining safe cells) / (remaining cells), flooring at every step.
/// Meaningful for `bombs <= 24` and `s <= 25 - bombs`.
pub open spec fn chance_fp(s: nat, bombs: nat) -> int
    decreases s,
{
    if s == 0 {
        PROBABILITY_SCALE as int
    } else {
        chance_fp((s - 1) as nat, bombs) * (25 - bombs - (s - 1)) / (25 - (s - 1))
    }
}

/// Clamp a raw basis-point value into the representable payout range.
pub open spec fn clamp_bps(m: int) -> u16 {
    if m > 65_535 {
        65_535u16
    } else if m < 10_000 {
        10_000u16
    } else {
        m as u16
    }
}

/// The payout multiplier in basis points owed for `s` safe reveals against
/// `bombs` bombs: par for no reveals or over-revealed input, the cap when the
/// fixed-point chance floors to zero, and otherwise the house-edged inverse
/// of the survival chance, clamped to [10_000, 65_535].
pub open spec fn multiplier_bps_spec(s: nat, bombs: nat) -> u16 {
    if s == 0 {
        10_000u16
    } else if s > 25 - bombs {
        10_000u16
    } else if chance_fp(s, bombs) == 0 {
        65_535u16
    } else {
        clamp_bps(HOUSE_EDGE_BPS * PROBABILITY_SCALE / chance_fp(s, bombs))
    }
}

/// One multiplication step keeps the chance non-negative and no larger than
/// it was, because the step multiplies by a fraction at most one.
proof fn lemma_chance_step_bounds(c: int, rs: int, rt: int)
    by (nonlinear_arith)
    requires
        0 <= c,
        0 <= rs <= rt,
        1 <= rt,
    ensures
        0 <= c * rs / rt <= c,
{
}

/// The fixed-point chance stays within [0, PROBABILITY_SCALE] on the whole
/// meaningful domain.
pub proof fn lemma_chance_fp_bounds(s: nat, bombs: nat)
    requires
        1 <= bombs <= 24,
        s <= 25 - bombs,
    ensures
        0 <= chance_fp(s, bombs) <= PROBABILITY_SCALE,
    decreases s,
{
    if s > 0 {
        lemma_chance_fp_bounds((s - 1) as nat, bombs);
        lemma_chance_step_bounds(
            chance_fp((s - 1) as nat, bombs),
            25 - bombs - (s - 1),
            25 - (s - 1),
        );
    }
}

/// Each further reveal can only lower (or keep) the fixed-point chance.
pub proof fn lemma_chance_fp_non_increasing(s1: nat, s2: nat, bombs: nat)
    requires
        1 <= bombs <= 24,
        s1 <= s2 <= 25 - bombs,
    ensures
        chance_fp(s2, bombs) <= chance_fp(s1, bombs),
    decreases s2 - s1,
{
    if s1 < s2 {
        lemma_chance_fp_non_increasing(s1, (s2 - 1) as nat, bombs);
        lemma_chance_fp_bounds((s2 - 1) as nat, bombs);
        lemma_chance_step_bounds(
            chance_fp((s2 - 1) as nat, bombs),
            25 - bombs - (s2 - 1),
            25 - (s2 - 1),
        );
    }
}

/// Law: a game with no reveals pays out at par for every valid bomb count.
pub proof fn lemma_multiplier_base_case(bombs: nat)
    requires
        1 <= bombs <= 24,
    ensures
        multiplier_bps_spec(0, bombs) == 10_000,
{
}

/// Law: the multiplier always lies in the closed range [10_000, 65_535].
pub proof fn lemma_multiplier_bounds(s: nat, bombs: nat)
    requires
        1 <= bombs <= 24,
    ensures
        10_000 <= multiplier_bps_spec(s, bombs) <= 65_535,
{
}

/// Law: for a fixed bomb count the multiplier is non-decreasing in the number
/// of safe reveals, over the whole valid domain.
pub proof fn lemma_multiplier_monotonic(s1: nat, s2: nat, bombs: nat)
    requires
        1 <= bombs <= 24,
        s1 <= s2 <= 25 - bombs,
    ensures
        multiplier_bps_spec(s1, bombs) <= multiplier_bps_spec(s2, bombs),
{
    lemma_multiplier_bounds(s1, bombs);
    lemma_multiplier_bounds(s2, bombs);
    if s1 > 0 && s2 > s1 {
        let c1 = chance_fp(s1, bombs);
        let c2 = chance_fp(s2, bombs);
        lemma_chance_fp_bounds(s1, bombs);
        lemma_chance_fp_bounds(s2, bombs);
        lemma_chance_fp_non_increasing(s1, s2, bombs);
        if c1 != 0 && c2 != 0 {
            vstd::arithmetic::div_mod::lemma_div_is_ordered_by_denominator(
                HOUSE_EDGE_BPS * PROBABILITY_SCALE,
                c2,
                c1,
            );
        }
    }
}

/// Compute the payout multiplier in basis points (10_000 = 1.0x) for
/// `safe_revealed` safe reveals against `bombs` bombs. The checked arithmetic
/// never overflows on this domain, so the result is always `Ok` and equals
/// the specification value, which lies in [10_000, 65_535].
pub fn calculate_multiplier_bps(safe_revealed: u8, bombs: u8) -> (r: Result<
    u16,
    SolbombsError,
>)
    requires
        1 <= bombs <= 24,
    ensures
        r == Ok::<u16, SolbombsError>(multiplier_bps_spec(safe_revealed as nat, bombs as nat)),
        10_000 <= r->Ok_0 <= 65_535,
{
    proof {
        lemma_multiplier_bounds(safe_revealed as nat, bombs as nat);
    }
    if safe_revealed == 0 {
        return Ok(10_000);  // 1.0x
    }
    let total_tiles: u32 = 25;
    let house_edge_bps: u32 = 9_900;

    // Survival probability in fixed point, scaled by 1_000_000.
    let scale: u64 = 1_000_000;
    let mut chance: u64 = scale;  // Start with 1.0

    let mut i: u8 = 0;
    while i < safe_revealed
        invariant
            total_tiles == 25,
            1 <= bombs <= 24,
            1 <= safe_revealed,
            i <= safe_revealed,
            i <= 25 - bombs,
            chance <= 1_000_000,
            chance == chance_fp(i as nat, bombs as nat),
        decreases safe_revealed - i,
    {
        let remaining_tiles: u32 = total_tiles - (i as u32);
        let remaining_safe: u32 = (total_tiles - bombs as u32) - (i as u32);

        if remaining_tiles == 0 || remaining_safe == 0 {
            // Degenerate or over-revealed input: fall back to par.
            assert(safe_revealed > 25 - bombs);
            return Ok(10_000);
        }

        proof {
            lemma_chance_step_bounds(
                chance as int,
                remaining_safe as int,
                remaining_tiles as int,
            );
            assert(chance * remaining_safe <= 1_000_000 * 25) by (nonlinear_arith)
                requires
                    chance <= 1_000_000,
                    0 <= remaining_safe <= 25,
            ;
        }
        chance = (chance * remaining_safe as u64) / remaining_tiles as u64;
        i = i + 1;
    }

    if chance == 0 {
        return Ok(65_535);  // Max multiplier
    }

    // multiplier_bps = floor(house_edge_bps * scale / chance_fp)
    let numerator: u128 = (house_edge_bps as u128) * (scale as u128);
    let divisor: u128 = chance as u128;
    let calc: u128 = numerator / divisor;
    let mut multiplier_bps: u32 = if calc > u32::MAX as u128 {
        u32::MAX
    } else {
        calc as u32
    };
    if multiplier_bps > 65_535 {
        multiplier_bps = 65_535;
    }
    if multiplier_bps < 10_000 {
        multiplier_bps = 10_000;
    }
    Ok(multiplier_bps as u16)
}

} // verus!
