//! Fixed-point diffusion engine.
//!
//! `StringState` folds a ten-slot packet attribute vector together with a
//! rotating nonce into one compact scalar in [0, 1.0), using Q32.32
//! arithmetic throughout: each attribute is offset by the nonce, scaled by a
//! pi-derived constant, passed through a truncated Taylor sine, scaled by a
//! phi-derived constant, decorrelated by an index-dependent offset, and the
//! ten contributions are summed with wraparound before reducing modulo 1.0.
//! For a fixed nonce the fold is a pure function of the attribute vector;
//! nondeterminism enters only through nonce rotation, which draws from the
//! operating system's entropy source once per epoch.

use vstd::prelude::*;

use crate::fixed::{
    rem_one, shift_down, spec_trunc_rem, spec_unit_fraction, trunc_rem, ONE_FIXED, PHI_FIXED,
    PI_FIXED, TWO_PI_FIXED,
};

verus! {

/// How long a nonce may serve before it is rotated, in milliseconds.
pub const NONCE_EPOCH_MS: u64 = 5000;

/// Index-decorrelation multiplier: a large odd constant.
pub const INDEX_SPREAD: i64 = 123456789;

/// Taylor coefficient 1/6 in Q32.32.
pub const INV_6_FIXED: i64 = 716861901;

/// Taylor coefficient 1/120 in Q32.32.
pub const INV_120_FIXED: i64 = 35791394;

/// Taylor coefficient 1/5040 in Q32.32.
pub const INV_5040_FIXED: i64 = 1429388;

/// The nonce epoch has run out at `now_ms` for a nonce refreshed at `last_ms`.
pub open spec fn epoch_elapsed(last_ms: u64, now_ms: u64) -> bool {
    now_ms >= last_ms && now_ms - last_ms >= NONCE_EPOCH_MS
}

/// Truncated odd-power Taylor series for sine in Q32.32, applied after range
/// reduction into [-pi, pi]. Products wrap on overflow by design.
pub open spec fn spec_sin_fixed(x0: i64) -> i64 {
    let xr = spec_trunc_rem(x0, TWO_PI_FIXED);
    let x = if xr > PI_FIXED {
        (xr - TWO_PI_FIXED) as i64
    } else if xr < -PI_FIXED {
        (xr + TWO_PI_FIXED) as i64
    } else {
        xr
    };
    let x2 = vstd::wrapping::i64_specs::wrapping_mul(x, x) >> 32u32;
    let x3 = vstd::wrapping::i64_specs::wrapping_mul(x2, x) >> 32u32;
    let x5 = vstd::wrapping::i64_specs::wrapping_mul(x3, x2) >> 32u32;
    let x7 = vstd::wrapping::i64_specs::wrapping_mul(x5, x2) >> 32u32;
    let term1 = x;
    let term3 = vstd::wrapping::i64_specs::wrapping_mul(x3, INV_6_FIXED) >> 32u32;
    let term5 = vstd::wrapping::i64_specs::wrapping_mul(x5, INV_120_FIXED) >> 32u32;
    let term7 = vstd::wrapping::i64_specs::wrapping_mul(x7, INV_5040_FIXED) >> 32u32;
    ((term1 - term3 + term5 - term7) as i64)
}

/// Contribution of the attribute at index `i` to the diffusion sum: nonce
/// offset, pi scaling, Taylor sine, phi scaling, index-dependent offset.
pub open spec fn spec_contribution(a: i64, nonce: u64, i: int) -> i64 {
    let a_nonce = vstd::wrapping::i64_specs::wrapping_add(a, nonce as i64);
    let scaled = vstd::wrapping::i64_specs::wrapping_mul(a_nonce, PI_FIXED) >> 32u32;
    let sin_val = spec_sin_fixed(scaled);
    let part = vstd::wrapping::i64_specs::wrapping_mul(sin_val, PHI_FIXED) >> 32u32;
    let idx_offset = ((i * INDEX_SPREAD) as i64) << 16u32;
    vstd::wrapping::i64_specs::wrapping_add(part, idx_offset)
}

/// Wraparound sum of the contributions of the first `n` attributes.
pub open spec fn spec_fold(attrs: Seq<i64>, nonce: u64, n: int) -> i64
    decreases n,
{
    if n <= 0 {
        0
    } else {
        vstd::wrapping::i64_specs::wrapping_add(
            spec_fold(attrs, nonce, n - 1),
            spec_contribution(attrs[n - 1], nonce, n - 1),
        )
    }
}

/// The compact scalar: the diffusion sum reduced modulo 1.0 in Q32.32.
pub open spec fn spec_compact(attrs: Seq<i64>, nonce: u64) -> i64 {
    spec_unit_fraction(spec_fold(attrs, nonce, 10))
}

/// Diffusion state: the rotating nonce and the time it was last refreshed.
pub struct StringState {
    /// The 64-bit nonce folded into every contribution.
    pub nonce: u64,
    /// When the nonce was last refreshed, in milliseconds.
    pub last_refresh_ms: u64,
}

/// Draws eight bytes from the operating system's entropy source.
///
/// Relies on getrandom::getrandom: on success the buffer is filled with
/// random bytes. The drawn value is unpredictable, so nothing is stated of
/// it; a failed draw is reported as `None`.
#[verifier::external_body]
fn entropy_u64() -> (r: Option<u64>) {
    let mut buf = [0u8; 8];
    match getrandom::getrandom(&mut buf) {
        Ok(()) => Some(u64::from_le_bytes(buf)),
        Err(_) => None,
    }
}

impl StringState {
    /// Creates a state whose nonce is freshly drawn at `now_ms`.
    pub fn new(now_ms: u64) -> (s: Self)
        ensures
            s.last_refresh_ms == now_ms,
    {
        let mut s = Self { nonce: 0, last_refresh_ms: now_ms };
        s.refresh_nonce(now_ms);
        s
    }

    /// Creates a state with a caller-chosen nonce, refreshed as of `now_ms`.
    pub fn with_nonce(nonce: u64, now_ms: u64) -> (s: Self)
        ensures
            s.nonce == nonce,
            s.last_refresh_ms == now_ms,
    {
        Self { nonce, last_refresh_ms: now_ms }
    }

    /// Installs the outcome of one entropy draw made at `now_ms`: the drawn
    /// value if the source answered, else the monotonic fallback increment.
    /// Either way the epoch restarts, and a failed draw still moves the nonce.
    pub fn apply_entropy(&mut self, drawn: Option<u64>, now_ms: u64)
        ensures
            final(self).nonce == match drawn {
                Some(v) => v,
                None => vstd::wrapping::u64_specs::wrapping_add(old(self).nonce, 1),
            },
            final(self).last_refresh_ms == now_ms,
            drawn is None ==> final(self).nonce != old(self).nonce,
    {
        match drawn {
            Some(v) => {
                self.nonce = v;
            },
            None => {
                self.nonce = self.nonce.wrapping_add(1);
            },
        }
        self.last_refresh_ms = now_ms;
    }

    /// Refreshes the nonce from the entropy source, falling back to the
    /// monotonic increment when the source fails.
    fn refresh_nonce(&mut self, now_ms: u64)
        ensures
            final(self).last_refresh_ms == now_ms,
    {
        let drawn = entropy_u64();
        self.apply_entropy(drawn, now_ms);
    }

    /// Rotates the nonce if its epoch has run out at `now_ms`; within the
    /// epoch the state is left untouched.
    pub fn ensure_fresh_nonce(&mut self, now_ms: u64)
        ensures
            !epoch_elapsed(old(self).last_refresh_ms, now_ms) ==> *final(self) == *old(self),
            epoch_elapsed(old(self).last_refresh_ms, now_ms) ==> final(self).last_refresh_ms
                == now_ms,
    {
        if now_ms >= self.last_refresh_ms && now_ms - self.last_refresh_ms >= NONCE_EPOCH_MS {
            self.refresh_nonce(now_ms);
        }
    }

    /// Truncated Taylor sine in Q32.32, after range reduction into [-pi, pi].
    pub fn sin_fixed(x: i64) -> (r: i64)
        ensures
            r == spec_sin_fixed(x),
    {
        let xr: i64 = trunc_rem(x, TWO_PI_FIXED);
        let x: i64 = if xr > PI_FIXED {
            xr - TWO_PI_FIXED
        } else if xr < -PI_FIXED {
            xr + TWO_PI_FIXED
        } else {
            xr
        };

        let x2: i64 = shift_down(x.wrapping_mul(x));
        let x3: i64 = shift_down(x2.wrapping_mul(x));
        let x5: i64 = shift_down(x3.wrapping_mul(x2));
        let x7: i64 = shift_down(x5.wrapping_mul(x2));

        let term1: i64 = x;
        let term3: i64 = shift_down(x3.wrapping_mul(INV_6_FIXED));
        let term5: i64 = shift_down(x5.wrapping_mul(INV_120_FIXED));
        let term7: i64 = shift_down(x7.wrapping_mul(INV_5040_FIXED));

        term1 - term3 + term5 - term7
    }

    /// Pure diffusion fold: the compact scalar of `attributes` under `nonce`.
    /// Deterministic: the result is fixed by the arguments alone, and always
    /// lies in [0, 1.0) in Q32.32.
    pub fn fold_attributes(attributes: &[i64; 10], nonce: u64) -> (r: i64)
        ensures
            r == spec_compact(attributes@, nonce),
            0 <= r < ONE_FIXED,
    {
        let mut sum: i64 = 0;
        let mut i: usize = 0;
        while i < 10
            invariant
                0 <= i <= 10,
                sum == spec_fold(attributes@, nonce, i as int),
            decreases 10 - i,
        {
            let a_i: i64 = attributes[i];
            let a_nonce: i64 = a_i.wrapping_add(#[verifier::truncate] (nonce as i64));
            let scaled: i64 = shift_down(a_nonce.wrapping_mul(PI_FIXED));
            let sin_val: i64 = Self::sin_fixed(scaled);
            let part: i64 = shift_down(sin_val.wrapping_mul(PHI_FIXED));

            let idx_offset: i64 = ((i as i64) * INDEX_SPREAD) << 16u32;
            sum = sum.wrapping_add(part.wrapping_add(idx_offset));
            i = i + 1;
        }
        rem_one(sum)
    }

    /// Main compactification: rotates the nonce if the epoch has run out at
    /// `now_ms`, then folds the attribute vector under the nonce now held.
    /// Within one epoch the state is untouched, so the result is reproduced
    /// bit for bit on identical input.
    pub fn compactify(&mut self, attributes: &[i64; 10], now_ms: u64) -> (r: i64)
        ensures
            r == spec_compact(attributes@, final(self).nonce),
            0 <= r < ONE_FIXED,
            !epoch_elapsed(old(self).last_refresh_ms, now_ms) ==> *final(self) == *old(self),
            epoch_elapsed(old(self).last_refresh_ms, now_ms) ==> final(self).last_refresh_ms
                == now_ms,
    {
        self.ensure_fresh_nonce(now_ms);
        Self::fold_attributes(attributes, self.nonce)
    }
}

} // verus!
