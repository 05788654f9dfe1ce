//! Rest cycle of the life-cycle controller.
//!
//! The controller duty-cycles between an active mode and a rest mode. The
//! mode decision is driven by a streak counter over "quiet" ticks: consecutive
//! quiet ticks lengthen the streak, any non-quiet tick resets it to zero and
//! forces active mode, and rest mode is entered once the streak exceeds the
//! threshold. The entropy bookkeeping that runs inside each mode is the
//! caller's; this type owns the tick counters and the mode itself.

use vstd::prelude::*;

verus! {

/// How many consecutive quiet ticks must pass before rest mode is entered.
pub const QUIET_STREAK: u64 = 500;

/// Tick counters and mode of the life-cycle controller.
pub struct RestCycle {
    /// Monotonic tick counter (wraps around).
    pub tick: u64,
    /// Length of the current consecutive quiet streak (saturates).
    pub rest_ticks: u64,
    /// Whether the controller is in rest mode.
    pub in_rest: bool,
}

/// One tick of the rest cycle: a quiet tick lengthens the streak and keeps or
/// enters rest mode once the streak exceeds the threshold; a non-quiet tick
/// resets the streak and forces active mode.
pub open spec fn spec_rest_step(s: RestCycle, quiet: bool) -> RestCycle {
    let tick = vstd::wrapping::u64_specs::wrapping_add(s.tick, 1);
    let rest_ticks = if quiet {
        if s.rest_ticks < u64::MAX {
            (s.rest_ticks + 1) as u64
        } else {
            s.rest_ticks
        }
    } else {
        0u64
    };
    let in_rest = quiet && (s.in_rest || rest_ticks > QUIET_STREAK);
    RestCycle { tick, rest_ticks, in_rest }
}

/// The rest cycle after a whole run of ticks, oldest event first.
pub open spec fn spec_rest_run(s: RestCycle, events: Seq<bool>) -> RestCycle
    decreases events.len(),
{
    if events.len() == 0 {
        s
    } else {
        spec_rest_run(spec_rest_step(s, events[0]), events.subrange(1, events.len() as int))
    }
}

impl RestCycle {
    /// Creates a controller at tick zero, active, with no streak.
    pub fn new() -> (s: Self)
        ensures
            s.tick == 0,
            s.rest_ticks == 0,
            !s.in_rest,
    {
        RestCycle { tick: 0, rest_ticks: 0, in_rest: false }
    }

    /// Advances the cycle by one tick whose quietness the caller determined.
    /// A single non-quiet tick clears rest mode and the streak at once.
    pub fn note(&mut self, quiet: bool)
        ensures
            *final(self) == spec_rest_step(*old(self), quiet),
            !quiet ==> !final(self).in_rest && final(self).rest_ticks == 0,
    {
        self.tick = self.tick.wrapping_add(1);
        if quiet {
            if self.rest_ticks < u64::MAX {
                self.rest_ticks = self.rest_ticks + 1;
            }
        } else {
            self.rest_ticks = 0;
            self.in_rest = false;
        }
        if self.rest_ticks > QUIET_STREAK {
            self.in_rest = true;
        }
    }

    /// Whether the controller is in rest mode.
    pub fn is_resting(&self) -> (r: bool)
        ensures
            r == self.in_rest,
    {
        self.in_rest
    }
}

/// A quiet run long enough to outlast the streak threshold from `s` onwards
/// ends in rest mode.
proof fn lemma_rest_streak_accumulates(s: RestCycle, events: Seq<bool>)
    requires
        events.len() >= 1,
        forall|i: int| 0 <= i < events.len() ==> events[i],
        s.rest_ticks + events.len() > QUIET_STREAK,
    ensures
        spec_rest_run(s, events).in_rest,
    decreases events.len(),
{
    let stepped = spec_rest_step(s, events[0]);
    let rest = events.subrange(1, events.len() as int);
    if events.len() == 1 {
        // Base case: the single quiet step pushes the streak past the
        // threshold, so the step itself enters rest mode.
        assert(spec_rest_run(s, events) == spec_rest_run(stepped, rest));
    } else {
        lemma_rest_streak_accumulates(stepped, rest);
    }
}

/// After more than `QUIET_STREAK` consecutive quiet ticks the controller is
/// resting, whatever state it started in.
pub proof fn lemma_rest_after_quiet_streak(s: RestCycle, events: Seq<bool>)
    requires
        events.len() > QUIET_STREAK,
        forall|i: int| 0 <= i < events.len() ==> events[i],
    ensures
        spec_rest_run(s, events).in_rest,
{
    lemma_rest_streak_accumulates(s, events);
}

} // verus!
