//! Percentage arithmetic shared by the layout strategies.

use vstd::prelude::*;

verus! {

/// The share, in percent, that the next split claims of the space that is
/// still to be divided among `parts` panes: `100 / parts`, rounded to the
/// nearest integer, a half rounded up.
pub open spec fn spec_next_percentage(parts: nat) -> nat
    recommends
        parts >= 1,
{
    (100 + parts / 2) / parts
}

/// Whether `percent` is the integer nearest to `100 / parts`, with a half
/// rounded away from zero: `percent - 1/2 <= 100 / parts < percent + 1/2`.
pub open spec fn is_rounded_share(percent: nat, parts: nat) -> bool {
    &&& (2 * percent - 1) * parts <= 200
    &&& 200 < (2 * percent + 1) * parts
}

/// `spec_next_percentage` rounds `100 / parts` to the nearest integer, a half
/// away from zero, and no other integer does.
pub proof fn lemma_next_percentage_rounds(parts: nat, other: nat)
    requires
        parts >= 1,
    ensures
        is_rounded_share(spec_next_percentage(parts), parts),
        is_rounded_share(other, parts) ==> other == spec_next_percentage(parts),
{
    let p = spec_next_percentage(parts);
    let half = parts / 2;
    assert(p * parts <= 100 + half < (p + 1) * parts) by (nonlinear_arith)
        requires
            parts > 0,
            p == (100 + half) / parts,
    ;
    assert(2 * half <= parts <= 2 * half + 1);
    assert((2 * p - 1) * parts == 2 * (p * parts) - parts) by (nonlinear_arith);
    assert((2 * p + 1) * parts == 2 * ((p + 1) * parts) - parts) by (nonlinear_arith);
    if is_rounded_share(other, parts) {
        assert(other == p) by (nonlinear_arith)
            requires
                parts >= 1,
                (2 * other - 1) * parts <= 200,
                200 < (2 * other + 1) * parts,
                (2 * p - 1) * parts <= 200,
                200 < (2 * p + 1) * parts,
        ;
    }
}

/// With two parts left the share is one half; no share is above one half once
/// there are at least two parts; none is zero up to two hundred parts, and
/// all are zero beyond.
pub proof fn lemma_next_percentage_bounds(parts: nat)
    requires
        parts >= 2,
    ensures
        spec_next_percentage(2) == 50,
        spec_next_percentage(parts) <= 50,
        parts <= 200 ==> spec_next_percentage(parts) >= 1,
        parts > 200 ==> spec_next_percentage(parts) == 0,
{
    let p = spec_next_percentage(parts);
    lemma_next_percentage_rounds(parts, p);
    assert(p <= 50) by (nonlinear_arith)
        requires
            (2 * p - 1) * parts <= 200,
            parts >= 2,
    ;
    if parts <= 200 {
        assert(p >= 1) by (nonlinear_arith)
            requires
                200 < (2 * p + 1) * parts,
                parts <= 200,
        ;
    } else {
        assert(p == 0) by (nonlinear_arith)
            requires
                (2 * p - 1) * parts <= 200,
                parts > 200,
        ;
    }
}

/// `spec_next_percentage` on a machine integer.
pub open spec fn spec_next_percentage_of(parts: usize) -> u8 {
    spec_next_percentage(parts as nat) as u8
}

/// Computes the share of the next split when the remaining space is to be
/// divided evenly among `parts` panes.
#[verifier::when_used_as_spec(spec_next_percentage_of)]
pub fn next_percentage(parts: usize) -> (percent: u8)
    requires
        parts >= 1,
    ensures
        percent == spec_next_percentage(parts as nat),
{
    let share: usize = (100 + parts / 2) / parts;
    assert(share <= 100) by (nonlinear_arith)
        requires
            share == (100 + (parts as int) / 2) / (parts as int),
            parts >= 1,
    ;
    share as u8
}

} // verus!
