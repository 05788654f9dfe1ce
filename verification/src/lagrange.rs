//! Hysteresis band detector of the equilibrium stabilizer.
//!
//! The stabilizer tracks a derived scalar against two nested bands in Q32.32
//! fixed point: a wider enter band and a narrower exit band. While out of the
//! zone it enters only when the scalar lies inside the enter band; while in
//! the zone it leaves only when the scalar falls outside the exit band. A
//! toggle therefore always needs the scalar on the far side of the opposite
//! band, never a mere wobble inside the exit band or outside the enter band.

use vstd::prelude::*;

verus! {

/// Lower edge of the enter band: the inverse golden ratio in Q32.32.
pub const ZONE_ENTER_MIN: i64 = 2654435769;

/// Upper edge of the enter band: the golden ratio in Q32.32.
pub const ZONE_ENTER_MAX: i64 = 6949403065;

/// How far each exit-band edge sits inside the enter band (0.1 in Q32.32).
pub const ZONE_BAND_MARGIN: i64 = 429496730;

/// Lower edge of the exit band.
pub const ZONE_EXIT_MIN: i64 = ZONE_ENTER_MIN + ZONE_BAND_MARGIN;

/// Upper edge of the exit band.
pub const ZONE_EXIT_MAX: i64 = ZONE_ENTER_MAX - ZONE_BAND_MARGIN;

/// Zone flag and band edges of the equilibrium stabilizer.
pub struct LagrangeZone {
    /// Whether the tracked scalar currently sits in the tolerance zone.
    pub in_zone: bool,
    /// Lower edge of the band that lets the scalar enter the zone.
    pub enter_min: i64,
    /// Upper edge of the band that lets the scalar enter the zone.
    pub enter_max: i64,
    /// Lower edge of the band that keeps the scalar in the zone.
    pub exit_min: i64,
    /// Upper edge of the band that keeps the scalar in the zone.
    pub exit_max: i64,
}

impl LagrangeZone {
    /// The exit band nests inside the enter band.
    pub open spec fn wf(&self) -> bool {
        self.enter_min <= self.exit_min <= self.exit_max <= self.enter_max
    }

    /// The scalar lies inside the enter band.
    pub open spec fn in_enter_band(&self, l: i64) -> bool {
        self.enter_min <= l <= self.enter_max
    }

    /// The scalar lies inside the exit band.
    pub open spec fn in_exit_band(&self, l: i64) -> bool {
        self.exit_min <= l <= self.exit_max
    }

    /// The two states share their band edges.
    pub open spec fn same_bands(&self, other: &LagrangeZone) -> bool {
        &&& self.enter_min == other.enter_min
        &&& self.enter_max == other.enter_max
        &&& self.exit_min == other.exit_min
        &&& self.exit_max == other.exit_max
    }

    /// The zone flag after one observation of the scalar `l`.
    pub open spec fn spec_zone_after(&self, l: i64) -> bool {
        if self.in_zone {
            self.in_exit_band(l)
        } else {
            self.in_enter_band(l)
        }
    }

    /// Creates a detector out of the zone, with the golden-ratio bands.
    pub fn new() -> (z: Self)
        ensures
            !z.in_zone,
            z.enter_min == ZONE_ENTER_MIN,
            z.enter_max == ZONE_ENTER_MAX,
            z.exit_min == ZONE_EXIT_MIN,
            z.exit_max == ZONE_EXIT_MAX,
            z.wf(),
    {
        LagrangeZone {
            in_zone: false,
            enter_min: ZONE_ENTER_MIN,
            enter_max: ZONE_ENTER_MAX,
            exit_min: ZONE_EXIT_MIN,
            exit_max: ZONE_EXIT_MAX,
        }
    }

    /// Observes one tracked scalar. Returns `None` while the system sits in
    /// the tolerance zone and `Some` with the deviating scalar once it has
    /// left; entering needs the scalar inside the wider enter band, leaving
    /// needs it outside the narrower exit band.
    pub fn classify(&mut self, l: i64) -> (r: Option<i64>)
        ensures
            final(self).same_bands(old(self)),
            final(self).in_zone == old(self).spec_zone_after(l),
            r == if final(self).in_zone {
                None::<i64>
            } else {
                Some(l)
            },
            !old(self).in_zone && final(self).in_zone ==> old(self).in_enter_band(l),
            old(self).in_zone && !final(self).in_zone ==> !old(self).in_exit_band(l),
    {
        if self.in_zone {
            if l < self.exit_min || l > self.exit_max {
                self.in_zone = false;
                Some(l)
            } else {
                None
            }
        } else {
            if l >= self.enter_min && l <= self.enter_max {
                self.in_zone = true;
            }
            if self.in_zone {
                None
            } else {
                Some(l)
            }
        }
    }
}

/// The zone flag after a whole run of observations, oldest first.
pub open spec fn spec_zone_run(z: LagrangeZone, ls: Seq<i64>) -> bool
    decreases ls.len(),
{
    if ls.len() == 0 {
        z.in_zone
    } else {
        spec_zone_run(
            LagrangeZone { in_zone: z.spec_zone_after(ls[0]), ..z },
            ls.subrange(1, ls.len() as int),
        )
    }
}

/// While every observed scalar stays inside the exit band, a system in the
/// zone never leaves it: no toggle without the value crossing out of the
/// narrower band.
pub proof fn lemma_zone_holds_within_exit_band(z: LagrangeZone, ls: Seq<i64>)
    requires
        z.wf(),
        z.in_zone,
        forall|i: int| 0 <= i < ls.len() ==> z.in_exit_band(ls[i]),
    ensures
        spec_zone_run(z, ls),
    decreases ls.len(),
{
    if ls.len() > 0 {
        lemma_zone_holds_within_exit_band(
            LagrangeZone { in_zone: z.spec_zone_after(ls[0]), ..z },
            ls.subrange(1, ls.len() as int),
        );
    }
}

/// While every observed scalar stays outside the enter band, a system out of
/// the zone never enters it: no toggle without the value crossing into the
/// wider band.
pub proof fn lemma_zone_stays_outside_enter_band(z: LagrangeZone, ls: Seq<i64>)
    requires
        z.wf(),
        !z.in_zone,
        forall|i: int| 0 <= i < ls.len() ==> !z.in_enter_band(ls[i]),
    ensures
        !spec_zone_run(z, ls),
    decreases ls.len(),
{
    if ls.len() > 0 {
        lemma_zone_stays_outside_enter_band(
            LagrangeZone { in_zone: z.spec_zone_after(ls[0]), ..z },
            ls.subrange(1, ls.len() as int),
        );
    }
}

/// Two consecutive toggles need the second scalar on the far side of the
/// opposite band: after entering on `l1`, leaving again takes `l2` outside
/// the exit band; after leaving on `l1`, entering again takes `l2` inside
/// the enter band.
pub proof fn lemma_toggle_requires_opposite_crossing(z: LagrangeZone, l1: i64, l2: i64)
    requires
        z.wf(),
    ensures
        ({
            let mid = LagrangeZone { in_zone: z.spec_zone_after(l1), ..z };
            &&& (!z.in_zone && mid.in_zone && !mid.spec_zone_after(l2)) ==> !z.in_exit_band(l2)
            &&& (z.in_zone && !mid.in_zone && mid.spec_zone_after(l2)) ==> z.in_enter_band(l2)
        }),
{
}

} // verus!
