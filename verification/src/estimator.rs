//! The position estimator: which way the shade is running, since when, and
//! the interval that is certain to hold its position.

use vstd::prelude::*;
use std::time::Instant;
use crate::clock::micros_since;
use crate::travel::{distance, travelled, FULL_SCALE, TIME_TO_BOTTOM, TIME_TO_TOP};

verus! {

/// What the shade is doing, and the clock reading from which the running time
/// of a movement is measured.
#[derive(Clone, Copy, Debug)]
pub enum MovementState {
    MovingUp(Instant),
    MovingDown(Instant),
    Stopped,
}

/// A position raised by `moved`, held at the top of the scale.
pub open spec fn raise(pos: u16, moved: nat) -> u16 {
    if pos + moved >= FULL_SCALE {
        FULL_SCALE
    } else {
        (pos + moved) as u16
    }
}

/// A position lowered by `moved`, held at the bottom of the scale.
pub open spec fn lower(pos: u16, moved: nat) -> u16 {
    if moved >= pos {
        0
    } else {
        (pos - moved) as u16
    }
}

/// The mathematical value of an estimator: the movement and the two bounds.
pub struct Estimate {
    pub movement: MovementState,
    pub min_pos: u16,
    pub max_pos: u16,
}

impl Estimate {
    /// The bounds are in order.
    pub open spec fn wf(self) -> bool {
        self.min_pos <= self.max_pos
    }

    /// Nothing is known of the position and the shade is at rest.
    pub open spec fn unknown() -> Estimate {
        Estimate { movement: MovementState::Stopped, min_pos: 0, max_pos: FULL_SCALE }
    }

    /// The same bounds under another movement.
    pub open spec fn with_movement(self, movement: MovementState) -> Estimate {
        Estimate { movement, min_pos: self.min_pos, max_pos: self.max_pos }
    }

    /// The shade is at rest.
    pub open spec fn is_stopped(self) -> bool {
        self.movement is Stopped
    }

    /// The estimate after the current movement has run for `elapsed_micros`,
    /// as seen at the clock reading `now`.
    ///
    /// A rising shade shifts both bounds up by the distance covered, each held
    /// at the top of the scale; once the lower bound is at the top the shade is
    /// known to be fully raised and at rest. A falling shade is the mirror
    /// image. While the shade still runs, the next measurement starts at `now`.
    /// A shade at rest keeps its estimate.
    pub open spec fn reconciled(self, elapsed_micros: nat, now: Instant) -> Estimate {
        match self.movement {
            MovementState::MovingUp(_) => {
                let moved = travelled(elapsed_micros, TIME_TO_TOP as nat);
                let min_pos = raise(self.min_pos, moved);
                Estimate {
                    movement: if min_pos == FULL_SCALE {
                        MovementState::Stopped
                    } else {
                        MovementState::MovingUp(now)
                    },
                    min_pos,
                    max_pos: raise(self.max_pos, moved),
                }
            },
            MovementState::MovingDown(_) => {
                let moved = travelled(elapsed_micros, TIME_TO_BOTTOM as nat);
                let max_pos = lower(self.max_pos, moved);
                Estimate {
                    movement: if max_pos == 0 {
                        MovementState::Stopped
                    } else {
                        MovementState::MovingDown(now)
                    },
                    min_pos: lower(self.min_pos, moved),
                    max_pos,
                }
            },
            MovementState::Stopped => self,
        }
    }

    /// `after` is `self` reconciled for some running time at some clock reading.
    pub open spec fn reconciles_to(self, after: Estimate) -> bool {
        exists|elapsed_micros: nat, now: Instant|
            after == #[trigger] self.reconciled(elapsed_micros, now)
    }

    /// The two bounds are those of `other`.
    pub open spec fn same_bounds(self, other: Estimate) -> bool {
        self.min_pos == other.min_pos && self.max_pos == other.max_pos
    }

    /// The bounds of `after` are those of `self` reconciled for some running
    /// time.
    pub open spec fn reconciles_bounds_to(self, after: Estimate) -> bool {
        exists|elapsed_micros: nat, now: Instant| #[trigger]
            self.reconciled(elapsed_micros, now).same_bounds(after)
    }

    /// The best guess of the position: the sum of the halves of the two
    /// bounds, each rounded down.
    pub open spec fn probably(self) -> nat {
        (self.max_pos / 2 + self.min_pos / 2) as nat
    }
}

/// The estimator. Its bounds are in order at all times.
pub struct ShadeState {
    movement: MovementState,
    max_pos: u16,
    min_pos: u16,
}

impl View for ShadeState {
    type V = Estimate;

    closed spec fn view(&self) -> Estimate {
        Estimate { movement: self.movement, min_pos: self.min_pos, max_pos: self.max_pos }
    }
}

impl Default for ShadeState {
    /// An estimator that knows nothing of the position, at rest.
    fn default() -> (state: Self)
        ensures
            state@ == Estimate::unknown(),
    {
        ShadeState { movement: MovementState::Stopped, max_pos: FULL_SCALE, min_pos: 0 }
    }
}

impl ShadeState {
    #[verifier::type_invariant]
    closed spec fn ordered(self) -> bool {
        self.min_pos <= self.max_pos
    }

    /// The bounds of an estimator are in order. Computes nothing: a call
    /// makes the invariant known where the estimator is not changed.
    #[inline(always)]
    pub(crate) fn bounds_in_order(&self)
        ensures
            self@.wf(),
    {
        proof {
            use_type_invariant(self);
        }
    }

    /// The movement in progress.
    pub fn movement(&self) -> (movement: MovementState)
        ensures
            movement == self@.movement,
    {
        self.movement
    }

    /// The lowest position the shade can be at.
    pub fn min_pos(&self) -> (pos: u16)
        ensures
            pos == self@.min_pos,
            pos <= self@.max_pos,
    {
        proof {
            use_type_invariant(self);
        }
        self.min_pos
    }

    /// The highest position the shade can be at.
    pub fn max_pos(&self) -> (pos: u16)
        ensures
            pos == self@.max_pos,
            pos >= self@.min_pos,
    {
        proof {
            use_type_invariant(self);
        }
        self.max_pos
    }

    /// The best guess of the position. It is no higher than the upper bound,
    /// and below the lower bound by at most the one lost to rounding.
    pub fn probably(&self) -> (pos: u16)
        ensures
            pos == self@.probably(),
            self@.min_pos <= pos + 1,
            pos <= self@.max_pos,
    {
        proof {
            use_type_invariant(self);
        }
        self.max_pos / 2 + self.min_pos / 2
    }

    /// Accounts for a movement that has run for `elapsed_micros`, as seen at
    /// the clock reading `now`.
    pub fn reconcile(&mut self, elapsed_micros: u128, now: Instant)
        ensures
            final(self)@ == old(self)@.reconciled(elapsed_micros as nat, now),
            final(self)@.wf(),
    {
        proof {
            use_type_invariant(&*self);
        }
        match self.movement {
            MovementState::MovingUp(_) => {
                let moved = distance(elapsed_micros, TIME_TO_TOP);
                let max_pos = self.max_pos.saturating_add(moved);
                let min_pos = self.min_pos.saturating_add(moved);
                let movement = if min_pos == FULL_SCALE {
                    MovementState::Stopped
                } else {
                    MovementState::MovingUp(now)
                };
                *self = ShadeState { movement, max_pos, min_pos };
            },
            MovementState::MovingDown(_) => {
                let moved = distance(elapsed_micros, TIME_TO_BOTTOM);
                let max_pos = self.max_pos.saturating_sub(moved);
                let min_pos = self.min_pos.saturating_sub(moved);
                let movement = if max_pos == 0 {
                    MovementState::Stopped
                } else {
                    MovementState::MovingDown(now)
                };
                *self = ShadeState { movement, max_pos, min_pos };
            },
            MovementState::Stopped => {},
        }
    }

    /// Accounts for the time that the current movement has run by the clock.
    /// A shade at rest keeps its estimate, and the clock is not read.
    pub fn record(&mut self)
        ensures
            old(self)@.reconciles_to(final(self)@),
            old(self)@.is_stopped() ==> final(self)@ == old(self)@,
            final(self)@.wf(),
    {
        proof {
            use_type_invariant(&*self);
        }
        match self.movement {
            MovementState::MovingUp(since) | MovementState::MovingDown(since) => {
                let elapsed_micros = micros_since(since);
                let now = Instant::now();
                self.reconcile(elapsed_micros, now);
            },
            MovementState::Stopped => {
                assert(self@ == self@.reconciled(0, arbitrary()));
            },
        }
    }

    /// Accounts for the time run so far, then starts a rising movement
    /// measured from the present. From rest the bounds are kept.
    pub fn move_up(&mut self)
        ensures
            final(self)@.movement is MovingUp,
            old(self)@.reconciles_bounds_to(final(self)@),
            old(self)@.is_stopped() ==> final(self)@.same_bounds(old(self)@),
            final(self)@.wf(),
    {
        self.record();
        let now = Instant::now();
        self.start(MovementState::MovingUp(now));
    }

    /// Accounts for the time run so far, then starts a falling movement
    /// measured from the present. From rest the bounds are kept.
    pub fn move_down(&mut self)
        ensures
            final(self)@.movement is MovingDown,
            old(self)@.reconciles_bounds_to(final(self)@),
            old(self)@.is_stopped() ==> final(self)@.same_bounds(old(self)@),
            final(self)@.wf(),
    {
        self.record();
        let now = Instant::now();
        self.start(MovementState::MovingDown(now));
    }

    /// Accounts for the time run so far, then puts the shade at rest. On a
    /// shade already at rest nothing changes.
    pub fn stop(&mut self)
        ensures
            final(self)@.is_stopped(),
            old(self)@.reconciles_bounds_to(final(self)@),
            old(self)@.is_stopped() ==> final(self)@ == old(self)@,
            final(self)@.wf(),
    {
        self.record();
        self.start(MovementState::Stopped);
    }

    /// Replaces the movement of an estimator that has just been reconciled.
    fn start(&mut self, movement: MovementState)
        ensures
            final(self)@ == old(self)@.with_movement(movement),
            final(self)@.wf(),
            forall|before: Estimate|
                before.reconciles_to(old(self)@) ==> before.reconciles_bounds_to(final(self)@),
    {
        proof {
            use_type_invariant(&*self);
        }
        let ghost mid = self@;
        self.movement = movement;
        assert forall|before: Estimate| before.reconciles_to(mid) implies before.reconciles_bounds_to(
            self@,
        ) by {
            let (elapsed_micros, now) = choose|elapsed_micros: nat, now: Instant|
                mid == #[trigger] before.reconciled(elapsed_micros, now);
            assert(before.reconciled(elapsed_micros, now).same_bounds(self@));
        }
    }
}

} // verus!
