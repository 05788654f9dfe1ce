//! Per-packet anomaly scoring for a UDP endpoint.
//!
//! The crate holds the deterministic half of the scoring pipeline: feature
//! extraction from packet metadata, the fixed-point diffusion engine that
//! folds an attribute vector into a compact scalar, the bounded dispatch
//! queue between intake and scoring, the integer decision cores of the
//! stateful transform chain (mutation phase, hysteresis zone, rest cycle),
//! and the response policy that turns their flags into a verdict.

use vstd::prelude::*;

pub mod atomic_core;
pub mod dispatch;
pub mod features;
pub mod fixed;
pub mod lagrange;
pub mod lumis;
pub mod string_state;

verus! {

/// What the pipeline answers for one scored packet.
#[derive(Clone, Copy, Debug, PartialEq, Eq, Structural)]
pub enum Verdict {
    /// The sandbox predictor flagged the packet before the chain ran.
    PreemptiveBlock,
    /// The stabilizer held the packet in the tolerance zone.
    Block,
    /// The packet passes without a response.
    Allow,
}

/// Response policy of the pipeline: a packet the sandbox flagged is blocked
/// pre-emptively and skips the transform chain; otherwise a packet the
/// stabilizer kept in the tolerance zone draws the block signal, and every
/// other packet passes.
pub fn decide_verdict(sandbox_flagged: bool, in_tolerance_zone: bool) -> (v: Verdict)
    ensures
        v == (if sandbox_flagged {
            Verdict::PreemptiveBlock
        } else if in_tolerance_zone {
            Verdict::Block
        } else {
            Verdict::Allow
        }),
{
    if sandbox_flagged {
        Verdict::PreemptiveBlock
    } else if in_tolerance_zone {
        Verdict::Block
    } else {
        Verdict::Allow
    }
}

} // verus!
