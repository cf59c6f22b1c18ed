//! How far the shade travels in a given time.

use vstd::prelude::*;

verus! {

/// Top of the position scale: the shade is fully raised. Zero is fully lowered.
pub const FULL_SCALE: u16 = 65535;

/// Milliseconds the shade takes from fully lowered to fully raised.
pub const TIME_TO_TOP: u64 = 16788;

/// Milliseconds the shade takes from fully raised to fully lowered.
pub const TIME_TO_BOTTOM: u64 = 16718;

/// Milliseconds an output is held active to register as one button press.
pub const PRESS_TIME: u64 = 100;

/// Distance covered on the position scale after `elapsed_micros` of running,
/// where the whole scale takes `full_millis`: the proportional share of the
/// scale, rounded down, and never more than the whole scale.
pub open spec fn travelled(elapsed_micros: nat, full_millis: nat) -> nat
    recommends
        full_millis > 0,
{
    let share = (FULL_SCALE as nat * elapsed_micros) / (full_millis * 1000);
    if share < FULL_SCALE as nat {
        share
    } else {
        FULL_SCALE as nat
    }
}

/// Running for the whole travel time or longer covers the whole scale.
pub proof fn lemma_travelled_full(elapsed_micros: nat, full_millis: nat)
    requires
        full_millis > 0,
        elapsed_micros >= full_millis * 1000,
    ensures
        travelled(elapsed_micros, full_millis) == FULL_SCALE,
{
    let full = full_millis * 1000;
    assert((65535 * elapsed_micros) / full >= 65535) by (nonlinear_arith)
        requires
            full > 0,
            elapsed_micros >= full,
    ;
}

/// Running for less than the whole travel time covers less than the whole
/// scale: the proportional share needs no clamping.
pub proof fn lemma_travelled_partial(elapsed_micros: nat, full_millis: nat)
    requires
        full_millis > 0,
        elapsed_micros < full_millis * 1000,
    ensures
        travelled(elapsed_micros, full_millis) == (FULL_SCALE as nat * elapsed_micros) / (
        full_millis * 1000),
        travelled(elapsed_micros, full_millis) < FULL_SCALE,
{
    let full = full_millis * 1000;
    assert((65535 * elapsed_micros) / full < 65535) by (nonlinear_arith)
        requires
            full > 0,
            elapsed_micros < full,
    ;
}

/// Computes [`travelled`] without overflow for any elapsed time.
pub fn distance(elapsed_micros: u128, full_millis: u64) -> (moved: u16)
    requires
        full_millis > 0,
    ensures
        moved == travelled(elapsed_micros as nat, full_millis as nat),
{
    let full: u128 = full_millis as u128 * 1000;
    if elapsed_micros >= full {
        proof {
            lemma_travelled_full(elapsed_micros as nat, full_millis as nat);
        }
        FULL_SCALE
    } else {
        proof {
            lemma_travelled_partial(elapsed_micros as nat, full_millis as nat);
            assert(65535 * elapsed_micros < 65535 * full) by (nonlinear_arith)
                requires
                    elapsed_micros < full,
            ;
        }
        let share: u128 = (FULL_SCALE as u128 * elapsed_micros) / full;
        share as u16
    }
}

} // verus!
