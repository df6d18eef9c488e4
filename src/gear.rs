//! The landing-gear state machine: retracted, extended, or moving one step
//! per tick in either direction, reversible at any step.
use vstd::prelude::*;

verus! {

/// The number of ticks a full opening or closing takes.
pub const GEAR_STEPS: u32 = 200;

#[derive(Clone, Copy, PartialEq, Eq, Structural, Debug)]
pub enum LandingGearState {
    Up,
    Down,
    Opening(u32),
    Closing(u32),
}

/// Where the gear stands after a tick: fully retracted, fully extended, or
/// at an interpolation step in `0..=GEAR_STEPS`, 0 being retracted.
#[derive(Clone, Copy, PartialEq, Eq, Structural, Debug)]
pub enum GearPose {
    Retracted,
    Extended,
    Step(u32),
}

/// A moving gear's step lies in `0..GEAR_STEPS`.
pub open spec fn gear_wf(g: LandingGearState) -> bool {
    match g {
        LandingGearState::Opening(s) => s < GEAR_STEPS,
        LandingGearState::Closing(s) => s < GEAR_STEPS,
        _ => true,
    }
}

/// The state after the player asks the gear to change direction.
pub open spec fn cycled(g: LandingGearState) -> LandingGearState {
    match g {
        LandingGearState::Opening(s) => LandingGearState::Closing(s),
        LandingGearState::Closing(s) => LandingGearState::Opening(s),
        LandingGearState::Up => LandingGearState::Opening(0),
        LandingGearState::Down => LandingGearState::Closing((GEAR_STEPS - 1) as u32),
    }
}

/// The step a closing gear moves to; a gear closing at step 0 stays there.
pub open spec fn closing_step(s: u32) -> u32 {
    if s == 0 {
        0
    } else {
        (s - 1) as u32
    }
}

/// The state one tick later.
pub open spec fn ticked(g: LandingGearState) -> LandingGearState {
    match g {
        LandingGearState::Opening(s) => if s + 1 >= GEAR_STEPS {
            LandingGearState::Down
        } else {
            LandingGearState::Opening((s + 1) as u32)
        },
        LandingGearState::Closing(s) => if closing_step(s) == 0 {
            LandingGearState::Up
        } else {
            LandingGearState::Closing(closing_step(s))
        },
        _ => g,
    }
}

/// The pose a tick from `g` shows.
pub open spec fn tick_pose(g: LandingGearState) -> GearPose {
    match g {
        LandingGearState::Opening(s) => GearPose::Step((s + 1) as u32),
        LandingGearState::Closing(s) => GearPose::Step(closing_step(s)),
        LandingGearState::Up => GearPose::Retracted,
        LandingGearState::Down => GearPose::Extended,
    }
}

/// The state `n` ticks later.
pub open spec fn ticks(g: LandingGearState, n: nat) -> LandingGearState
    decreases n,
{
    if n == 0 {
        g
    } else {
        ticks(ticked(g), (n - 1) as nat)
    }
}

impl LandingGearState {
    /// Reverses a moving gear in place, starts opening a retracted one and
    /// starts closing an extended one.
    pub fn cycle_gear(self) -> (r: LandingGearState)
        requires
            gear_wf(self),
        ensures
            r == cycled(self),
            gear_wf(r),
    {
        match self {
            LandingGearState::Opening(s) => LandingGearState::Closing(s),
            LandingGearState::Closing(s) => LandingGearState::Opening(s),
            LandingGearState::Up => LandingGearState::Opening(0),
            LandingGearState::Down => LandingGearState::Closing(GEAR_STEPS - 1),
        }
    }

    /// Moves the gear one step and says where it then stands.
    pub fn tick(self) -> (r: (LandingGearState, GearPose))
        requires
            gear_wf(self),
        ensures
            r.0 == ticked(self),
            r.1 == tick_pose(self),
            gear_wf(r.0),
    {
        match self {
            LandingGearState::Opening(s) => {
                let next = s + 1;
                let state = if next >= GEAR_STEPS {
                    LandingGearState::Down
                } else {
                    LandingGearState::Opening(next)
                };
                (state, GearPose::Step(next))
            },
            LandingGearState::Closing(s) => {
                let next = s.saturating_sub(1);
                let state = if next == 0 {
                    LandingGearState::Up
                } else {
                    LandingGearState::Closing(next)
                };
                (state, GearPose::Step(next))
            },
            LandingGearState::Up => (LandingGearState::Up, GearPose::Retracted),
            LandingGearState::Down => (LandingGearState::Down, GearPose::Extended),
        }
    }
}

/// A gear at rest stays at rest.
pub proof fn lemma_rest_is_fixed(g: LandingGearState, n: nat)
    requires
        g == LandingGearState::Up || g == LandingGearState::Down,
    ensures
        ticks(g, n) == g,
    decreases n,
{
    if n > 0 {
        lemma_rest_is_fixed(g, (n - 1) as nat);
    }
}

/// An opening gear advances one step per tick until it is down.
pub proof fn lemma_opening_ticks(s: u32, n: nat)
    requires
        s < GEAR_STEPS,
    ensures
        ticks(LandingGearState::Opening(s), n) == if s + n >= GEAR_STEPS {
            LandingGearState::Down
        } else {
            LandingGearState::Opening((s + n) as u32)
        },
    decreases n,
{
    if n > 0 {
        if s + 1 >= GEAR_STEPS {
            lemma_rest_is_fixed(LandingGearState::Down, (n - 1) as nat);
        } else {
            lemma_opening_ticks((s + 1) as u32, (n - 1) as nat);
        }
    }
}

/// A closing gear goes back one step per tick until it is up.
pub proof fn lemma_closing_ticks(s: u32, n: nat)
    requires
        1 <= s < GEAR_STEPS,
    ensures
        ticks(LandingGearState::Closing(s), n) == if n >= s {
            LandingGearState::Up
        } else {
            LandingGearState::Closing((s - n) as u32)
        },
    decreases n,
{
    if n > 0 {
        if s == 1 {
            lemma_rest_is_fixed(LandingGearState::Up, (n - 1) as nat);
        } else {
            lemma_closing_ticks((s - 1) as u32, (n - 1) as nat);
        }
    }
}

/// From down, one cycle and `GEAR_STEPS` ticks bring the gear up; from up,
/// one cycle and `GEAR_STEPS` ticks bring it down again.
pub proof fn lemma_gear_round_trip()
    ensures
        ticks(cycled(LandingGearState::Down), GEAR_STEPS as nat) == LandingGearState::Up,
        ticks(cycled(LandingGearState::Up), GEAR_STEPS as nat) == LandingGearState::Down,
{
    lemma_closing_ticks((GEAR_STEPS - 1) as u32, GEAR_STEPS as nat);
    lemma_opening_ticks(0, GEAR_STEPS as nat);
}

/// Reversing a moving gear keeps its step, and reversing it again restores
/// it: the direction changes, the position does not.
pub proof fn lemma_cycle_reverses_in_place(g: LandingGearState)
    requires
        g is Opening || g is Closing,
    ensures
        cycled(cycled(g)) == g,
        cycled(g) is Opening <==> g is Closing,
{
}

/// A gear stopped while opening after `n` ticks and reversed comes back to
/// the step it started from after another `n` ticks, and the same holds
/// closing: there is no drift.
pub proof fn lemma_reversal_returns(s: u32, n: nat)
    requires
        1 <= s,
        s + n < GEAR_STEPS,
    ensures
        ticks(cycled(ticks(LandingGearState::Opening(s), n)), n) == LandingGearState::Closing(s),
        ticks(cycled(ticks(LandingGearState::Closing((s + n) as u32), n)), n)
            == LandingGearState::Opening((s + n) as u32),
{
    lemma_opening_ticks(s, n);
    lemma_closing_ticks((s + n) as u32, n);
    lemma_opening_ticks(s, n);
}

} // verus!
