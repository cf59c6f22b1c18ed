//! What holds of the estimator over whole runs: its bounds stay in order,
//! they only shift in the direction of travel, and a long enough run pins the
//! position to an end of the scale.

use vstd::prelude::*;
use std::time::Instant;
use crate::command::{output_for, Command};
use crate::estimator::{lower, raise, Estimate, MovementState};
use crate::travel::{lemma_travelled_full, travelled, FULL_SCALE, TIME_TO_BOTTOM, TIME_TO_TOP};

verus! {

/// One reconciliation of a run: the time elapsed and the clock reading at
/// which it was measured.
pub type Step = (nat, Instant);

/// The estimate after reconciling each step of `steps` in turn.
pub open spec fn reconciled_all(start: Estimate, steps: Seq<Step>) -> Estimate
    decreases steps.len(),
{
    if steps.len() == 0 {
        start
    } else {
        reconciled_all(start, steps.drop_last()).reconciled(steps.last().0, steps.last().1)
    }
}

/// The distance that the steps of `steps` cover together, each rounded down
/// by itself, at `full_millis` for the whole scale.
pub open spec fn total_travelled(steps: Seq<Step>, full_millis: nat) -> nat
    decreases steps.len(),
{
    if steps.len() == 0 {
        0
    } else {
        total_travelled(steps.drop_last(), full_millis) + travelled(steps.last().0, full_millis)
    }
}

/// The time that the steps of `steps` last together, in microseconds.
pub open spec fn total_elapsed(steps: Seq<Step>) -> nat
    decreases steps.len(),
{
    if steps.len() == 0 {
        0
    } else {
        total_elapsed(steps.drop_last()) + steps.last().0
    }
}

/// A longer run never covers less distance.
pub proof fn lemma_travelled_monotone(shorter: nat, longer: nat, full_millis: nat)
    requires
        full_millis > 0,
        shorter <= longer,
    ensures
        travelled(shorter, full_millis) <= travelled(longer, full_millis),
{
    let full = full_millis * 1000;
    assert((65535 * shorter) / full <= (65535 * longer) / full) by (nonlinear_arith)
        requires
            full > 0,
            shorter <= longer,
    ;
}

/// Bounds in order stay in order: reconciling never puts the lower bound
/// above the upper, and neither does a change of movement.
pub proof fn lemma_bounds_stay_ordered(
    before: Estimate,
    elapsed_micros: nat,
    now: Instant,
    movement: MovementState,
)
    requires
        before.wf(),
    ensures
        before.reconciled(elapsed_micros, now).wf(),
        before.with_movement(movement).wf(),
        Estimate::unknown().wf(),
{
}

/// Bounds stay in order over any run of reconciliations.
pub proof fn lemma_run_stays_ordered(start: Estimate, steps: Seq<Step>)
    requires
        start.wf(),
    ensures
        reconciled_all(start, steps).wf(),
    decreases steps.len(),
{
    if steps.len() > 0 {
        lemma_run_stays_ordered(start, steps.drop_last());
    }
}

/// A shade at rest is a fixed point: reconciling it changes nothing however
/// much time has passed, and stopping it again leaves it as it was.
pub proof fn lemma_rest_is_fixed(before: Estimate, elapsed_micros: nat, now: Instant)
    requires
        before.is_stopped(),
    ensures
        before.reconciled(elapsed_micros, now) == before,
        before.reconciled(elapsed_micros, now).with_movement(MovementState::Stopped) == before,
{
}

/// While the shade rises neither bound ever decreases; while it falls neither
/// ever increases.
pub proof fn lemma_bounds_follow_travel(before: Estimate, elapsed_micros: nat, now: Instant)
    ensures
        before.movement is MovingUp ==> before.reconciled(elapsed_micros, now).min_pos
            >= before.min_pos,
        before.movement is MovingUp ==> before.reconciled(elapsed_micros, now).max_pos
            >= before.max_pos,
        before.movement is MovingDown ==> before.reconciled(elapsed_micros, now).min_pos
            <= before.min_pos,
        before.movement is MovingDown ==> before.reconciled(elapsed_micros, now).max_pos
            <= before.max_pos,
{
}

/// The interval never widens: after a reconciliation the bounds are no
/// further apart than before.
pub proof fn lemma_never_widens(before: Estimate, elapsed_micros: nat, now: Instant)
    requires
        before.wf(),
    ensures
        before.reconciled(elapsed_micros, now).max_pos - before.reconciled(
            elapsed_micros,
            now,
        ).min_pos <= before.max_pos - before.min_pos,
{
}

/// What a reading of the clock can do to the bounds, whatever it shows: they
/// stay in order, they are no further apart than before, and they have only
/// moved the way the shade was running. At rest they have not moved at all.
pub proof fn lemma_any_reading_is_safe(before: Estimate, after: Estimate)
    requires
        before.wf(),
        before.reconciles_bounds_to(after),
    ensures
        after.wf(),
        after.max_pos - after.min_pos <= before.max_pos - before.min_pos,
        before.movement is MovingUp ==> after.min_pos >= before.min_pos && after.max_pos
            >= before.max_pos,
        before.movement is MovingDown ==> after.min_pos <= before.min_pos && after.max_pos
            <= before.max_pos,
        before.is_stopped() ==> after.same_bounds(before),
{
    let (elapsed_micros, now) = choose|elapsed_micros: nat, now: Instant| #[trigger]
        before.reconciled(elapsed_micros, now).same_bounds(after);
    lemma_never_widens(before, elapsed_micros, now);
    lemma_bounds_follow_travel(before, elapsed_micros, now);
}

/// A reconciliation is one of the outcomes that the bounds-only relation
/// admits.
pub proof fn lemma_reconciliation_admitted(before: Estimate, after: Estimate)
    requires
        before.reconciles_to(after),
    ensures
        before.reconciles_bounds_to(after),
{
    let (elapsed_micros, now) = choose|elapsed_micros: nat, now: Instant|
        after == #[trigger] before.reconciled(elapsed_micros, now);
    assert(before.reconciled(elapsed_micros, now).same_bounds(after));
}

/// Stopping a shade at rest is idle: however much time has passed, the
/// estimate stays as it was and no output is pulsed.
pub proof fn lemma_stop_at_rest_is_idle(before: Estimate, elapsed_micros: nat, now: Instant)
    requires
        before.is_stopped(),
    ensures
        before.reconciled(elapsed_micros, now) == before,
        output_for(Command::Stop, before.reconciled(elapsed_micros, now)) is None,
{
}

/// A run too short to cover one position of the scale, whichever way the
/// shade runs, leaves both bounds where they were.
pub proof fn lemma_short_run_keeps_bounds(before: Estimate, elapsed_micros: nat, now: Instant)
    requires
        FULL_SCALE * elapsed_micros < TIME_TO_TOP as nat * 1000,
        FULL_SCALE * elapsed_micros < TIME_TO_BOTTOM as nat * 1000,
    ensures
        before.reconciled(elapsed_micros, now).same_bounds(before),
{
    let up = TIME_TO_TOP as nat * 1000;
    let down = TIME_TO_BOTTOM as nat * 1000;
    assert((65535 * elapsed_micros) / up == 0) by (nonlinear_arith)
        requires
            65535 * elapsed_micros < up,
    ;
    assert((65535 * elapsed_micros) / down == 0) by (nonlinear_arith)
        requires
            65535 * elapsed_micros < down,
    ;
}

/// One reconciliation of a rising shade after the whole upward travel time
/// or more leaves it fully raised and at rest, wherever the bounds were.
pub proof fn lemma_full_rise_pins_top(before: Estimate, elapsed_micros: nat, now: Instant)
    requires
        before.wf(),
        before.movement is MovingUp,
        elapsed_micros >= TIME_TO_TOP as nat * 1000,
    ensures
        before.reconciled(elapsed_micros, now).min_pos == FULL_SCALE,
        before.reconciled(elapsed_micros, now).max_pos == FULL_SCALE,
        before.reconciled(elapsed_micros, now).is_stopped(),
{
    lemma_travelled_full(elapsed_micros, TIME_TO_TOP as nat);
}

/// One reconciliation of a falling shade after the whole downward travel time
/// or more leaves it fully lowered and at rest, wherever the bounds were.
pub proof fn lemma_full_fall_pins_bottom(before: Estimate, elapsed_micros: nat, now: Instant)
    requires
        before.wf(),
        before.movement is MovingDown,
        elapsed_micros >= TIME_TO_BOTTOM as nat * 1000,
    ensures
        before.reconciled(elapsed_micros, now).min_pos == 0,
        before.reconciled(elapsed_micros, now).max_pos == 0,
        before.reconciled(elapsed_micros, now).is_stopped(),
{
    lemma_travelled_full(elapsed_micros, TIME_TO_BOTTOM as nat);
}

/// A run of reconciliations of a rising shade raises each bound by the
/// distances of its steps added up, held at the top of the scale. After the
/// first step the shade is at rest exactly when its lower bound is at the top.
pub proof fn lemma_rising_run(start: Estimate, steps: Seq<Step>)
    requires
        start.wf(),
        start.movement is MovingUp,
    ensures
        reconciled_all(start, steps).min_pos == raise(
            start.min_pos,
            total_travelled(steps, TIME_TO_TOP as nat),
        ),
        reconciled_all(start, steps).max_pos == raise(
            start.max_pos,
            total_travelled(steps, TIME_TO_TOP as nat),
        ),
        reconciled_all(start, steps).is_stopped() || reconciled_all(start, steps).movement is MovingUp,
        steps.len() > 0 ==> (reconciled_all(start, steps).is_stopped() <==> reconciled_all(
            start,
            steps,
        ).min_pos == FULL_SCALE),
    decreases steps.len(),
{
    if steps.len() > 0 {
        lemma_rising_run(start, steps.drop_last());
        lemma_run_stays_ordered(start, steps.drop_last());
    }
}

/// A run of reconciliations of a falling shade lowers each bound by the
/// distances of its steps added up, held at the bottom of the scale. After
/// the first step the shade is at rest exactly when its upper bound is at the
/// bottom.
pub proof fn lemma_falling_run(start: Estimate, steps: Seq<Step>)
    requires
        start.wf(),
        start.movement is MovingDown,
    ensures
        reconciled_all(start, steps).min_pos == lower(
            start.min_pos,
            total_travelled(steps, TIME_TO_BOTTOM as nat),
        ),
        reconciled_all(start, steps).max_pos == lower(
            start.max_pos,
            total_travelled(steps, TIME_TO_BOTTOM as nat),
        ),
        reconciled_all(start, steps).is_stopped() || reconciled_all(start, steps).movement is MovingDown,
        steps.len() > 0 ==> (reconciled_all(start, steps).is_stopped() <==> reconciled_all(
            start,
            steps,
        ).max_pos == 0),
    decreases steps.len(),
{
    if steps.len() > 0 {
        lemma_falling_run(start, steps.drop_last());
        lemma_run_stays_ordered(start, steps.drop_last());
    }
}

/// Saturation at the top: once the distances of a rising run, added to the
/// lower bound it started from, reach the top of the scale, the shade is
/// fully raised and at rest.
pub proof fn lemma_run_saturates_up(start: Estimate, steps: Seq<Step>)
    requires
        start.wf(),
        start.movement is MovingUp,
        steps.len() > 0,
        start.min_pos + total_travelled(steps, TIME_TO_TOP as nat) >= FULL_SCALE,
    ensures
        reconciled_all(start, steps).min_pos == FULL_SCALE,
        reconciled_all(start, steps).max_pos == FULL_SCALE,
        reconciled_all(start, steps).is_stopped(),
{
    lemma_rising_run(start, steps);
}

/// Saturation at the bottom: once the distances of a falling run reach the
/// upper bound it started from, the shade is fully lowered and at rest.
pub proof fn lemma_run_saturates_down(start: Estimate, steps: Seq<Step>)
    requires
        start.wf(),
        start.movement is MovingDown,
        steps.len() > 0,
        total_travelled(steps, TIME_TO_BOTTOM as nat) >= start.max_pos,
    ensures
        reconciled_all(start, steps).min_pos == 0,
        reconciled_all(start, steps).max_pos == 0,
        reconciled_all(start, steps).is_stopped(),
{
    lemma_falling_run(start, steps);
}

/// Rounding each step down by itself loses less than one position a step:
/// unless the steps cover the whole scale anyway, the exact share of the
/// scale for their time is no more than their distance plus one position for
/// each step.
pub proof fn lemma_rounding_loss(steps: Seq<Step>, full_millis: nat)
    requires
        full_millis > 0,
    ensures
        total_travelled(steps, full_millis) >= FULL_SCALE || FULL_SCALE * total_elapsed(steps) <= (
        total_travelled(steps, full_millis) + steps.len()) * (full_millis * 1000),
    decreases steps.len(),
{
    if steps.len() > 0 {
        let earlier = steps.drop_last();
        lemma_rounding_loss(earlier, full_millis);
        let full = full_millis * 1000;
        let elapsed = steps.last().0;
        let moved = travelled(elapsed, full_millis);
        let before = total_travelled(earlier, full_millis);
        let time_before = total_elapsed(earlier);
        let count = earlier.len();
        if before < FULL_SCALE && moved < FULL_SCALE {
            assert(moved == (65535 * elapsed) / full);
            assert(65535 * elapsed < ((65535 * elapsed) / full + 1) * full) by (nonlinear_arith)
                requires
                    full > 0,
            ;
            assert(65535 * (time_before + elapsed) <= (before + moved + (count + 1)) * full)
                by (nonlinear_arith)
                requires
                    65535 * time_before <= (before + count) * full,
                    65535 * elapsed < (moved + 1) * full,
            ;
        }
    }
}

/// Saturation by time: a rising run whose steps together last the upward
/// travel time, and on top of it the time of one position for each step to
/// make up for rounding, ends fully raised and at rest, wherever the bounds
/// were.
pub proof fn lemma_long_run_saturates_up(start: Estimate, steps: Seq<Step>)
    requires
        start.wf(),
        start.movement is MovingUp,
        steps.len() > 0,
        FULL_SCALE * total_elapsed(steps) >= (FULL_SCALE + steps.len()) * (TIME_TO_TOP as nat
            * 1000),
    ensures
        reconciled_all(start, steps).min_pos == FULL_SCALE,
        reconciled_all(start, steps).max_pos == FULL_SCALE,
        reconciled_all(start, steps).is_stopped(),
{
    lemma_rounding_loss(steps, TIME_TO_TOP as nat);
    let full = TIME_TO_TOP as nat * 1000;
    let moved = total_travelled(steps, TIME_TO_TOP as nat);
    let count = steps.len();
    assert(moved >= 65535) by (nonlinear_arith)
        requires
            full > 0,
            moved >= 65535 || (65535 + count) * full <= (moved + count) * full,
    ;
    lemma_run_saturates_up(start, steps);
}

/// Saturation by time: a falling run whose steps together last the downward
/// travel time, and on top of it the time of one position for each step to
/// make up for rounding, ends fully lowered and at rest, wherever the bounds
/// were.
pub proof fn lemma_long_run_saturates_down(start: Estimate, steps: Seq<Step>)
    requires
        start.wf(),
        start.movement is MovingDown,
        steps.len() > 0,
        FULL_SCALE * total_elapsed(steps) >= (FULL_SCALE + steps.len()) * (TIME_TO_BOTTOM as nat
            * 1000),
    ensures
        reconciled_all(start, steps).min_pos == 0,
        reconciled_all(start, steps).max_pos == 0,
        reconciled_all(start, steps).is_stopped(),
{
    lemma_rounding_loss(steps, TIME_TO_BOTTOM as nat);
    let full = TIME_TO_BOTTOM as nat * 1000;
    let moved = total_travelled(steps, TIME_TO_BOTTOM as nat);
    let count = steps.len();
    assert(moved >= 65535) by (nonlinear_arith)
        requires
            full > 0,
            moved >= 65535 || (65535 + count) * full <= (moved + count) * full,
    ;
    lemma_run_saturates_down(start, steps);
}

} // verus!
