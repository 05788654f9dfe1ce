//! Critical/nominal state machine of the resonance core.
//!
//! The resonance core is driven once per scored packet by a drift scalar:
//! how far the ratio of input entropy to valence energy sits from the
//! equilibrium constant. The core's implicit state machine lives here: the
//! critical flag rises exactly when the drift magnitude leaves the tolerance
//! threshold, and under extreme drift a mutation advances the seven-valued
//! cyclic phase. Drift is handed in as a Q32.32 fixed-point scalar.

use vstd::prelude::*;

verus! {

/// Drift magnitude beyond which the core is critical (0.08 in Q32.32).
pub const CRITICAL_DRIFT_FIXED: i64 = 343597384;

/// Drift magnitude beyond which a mutation triggers (0.15 in Q32.32).
pub const EXTREME_DRIFT_FIXED: i64 = 644245094;

/// How many mutation phases the cycle has.
pub const PHASE_COUNT: u8 = 7;

/// The drift has left the tolerance band around equilibrium.
pub open spec fn spec_critical_drift(drift: i64) -> bool {
    drift > CRITICAL_DRIFT_FIXED || drift < -CRITICAL_DRIFT_FIXED
}

/// The drift is extreme enough to trigger a mutation.
pub open spec fn spec_extreme_drift(drift: i64) -> bool {
    drift > EXTREME_DRIFT_FIXED || drift < -EXTREME_DRIFT_FIXED
}

/// Critical flag and cyclic mutation phase of the resonance core.
pub struct ResonancePhase {
    /// Mutation phase, always one of 0 through 6.
    pub mutation_phase: u8,
    /// Whether the last rebalance found the drift out of tolerance.
    pub is_critical: bool,
}

/// One rebalance of the phase machine under a drift scalar.
pub open spec fn spec_phase_step(p: ResonancePhase, drift: i64) -> ResonancePhase {
    if spec_critical_drift(drift) {
        ResonancePhase {
            mutation_phase: if spec_extreme_drift(drift) {
                ((p.mutation_phase + 1) % (PHASE_COUNT as int)) as u8
            } else {
                p.mutation_phase
            },
            is_critical: true,
        }
    } else {
        ResonancePhase { mutation_phase: p.mutation_phase, is_critical: false }
    }
}

/// The phase machine after a whole run of drifts, oldest first.
pub open spec fn spec_phase_run(p: ResonancePhase, drifts: Seq<i64>) -> ResonancePhase
    decreases drifts.len(),
{
    if drifts.len() == 0 {
        p
    } else {
        spec_phase_run(spec_phase_step(p, drifts[0]), drifts.subrange(1, drifts.len() as int))
    }
}

impl ResonancePhase {
    /// The phase is one of its seven values.
    pub open spec fn wf(&self) -> bool {
        self.mutation_phase < PHASE_COUNT
    }

    /// Creates a nominal machine at phase zero.
    pub fn new() -> (p: Self)
        ensures
            p.mutation_phase == 0,
            !p.is_critical,
            p.wf(),
    {
        ResonancePhase { mutation_phase: 0, is_critical: false }
    }

    /// Rebalances under one drift scalar: the critical flag rises exactly
    /// when the drift magnitude exceeds the tolerance threshold, and the
    /// phase advances cyclically exactly when it exceeds the extreme
    /// threshold. Returns whether a mutation triggered.
    pub fn rebalance(&mut self, drift: i64) -> (mutated: bool)
        requires
            old(self).wf(),
        ensures
            *final(self) == spec_phase_step(*old(self), drift),
            final(self).wf(),
            mutated == spec_extreme_drift(drift),
            !spec_extreme_drift(drift) ==> final(self).mutation_phase == old(
                self,
            ).mutation_phase,
            final(self).is_critical == spec_critical_drift(drift),
    {
        if drift > CRITICAL_DRIFT_FIXED || drift < -CRITICAL_DRIFT_FIXED {
            self.is_critical = true;
            if drift > EXTREME_DRIFT_FIXED || drift < -EXTREME_DRIFT_FIXED {
                self.mutation_phase = (self.mutation_phase + 1) % PHASE_COUNT;
                true
            } else {
                false
            }
        } else {
            self.is_critical = false;
            false
        }
    }
}

/// The mutation phase stays one of its seven values over any run of drifts.
pub proof fn lemma_phase_stays_in_range(p: ResonancePhase, drifts: Seq<i64>)
    requires
        p.wf(),
    ensures
        spec_phase_run(p, drifts).wf(),
    decreases drifts.len(),
{
    if drifts.len() > 0 {
        lemma_phase_stays_in_range(
            spec_phase_step(p, drifts[0]),
            drifts.subrange(1, drifts.len() as int),
        );
    }
}

} // verus!
