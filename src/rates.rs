use vstd::prelude::*;

verus! {

/// The fixed-point scale of every rate: `RATE_SCALE` stands for certainty, and a
/// rate `r` means the probability `r / RATE_SCALE`.
pub const RATE_SCALE: u64 = 1_000_000_000;

/// A rate clipped at certainty.
pub open spec fn clip(x: int) -> int {
    if x > RATE_SCALE {
        RATE_SCALE as int
    } else {
        x
    }
}

/// The soft-pity ramp: `base` while `pity` is at most `soft_start`, then
/// `increment` more for each pull past it, clipped at certainty.
pub open spec fn ramp_rate(base: int, increment: int, soft_start: int, pity: int) -> int {
    if pity > soft_start {
        clip(base + increment * (pity - soft_start))
    } else {
        clip(base)
    }
}

/// Computes [`ramp_rate`] without overflow.
pub fn ramped_rate(base: u64, increment: u64, soft_start: u64, pity: u64) -> (r: u64)
    requires
        base <= RATE_SCALE,
        increment <= RATE_SCALE,
    ensures
        r == ramp_rate(base as int, increment as int, soft_start as int, pity as int),
        r <= RATE_SCALE,
{
    if pity <= soft_start || increment == 0 {
        return base;
    }
    let past: u64 = pity - soft_start;
    if past >= RATE_SCALE {
        assert(increment * past >= RATE_SCALE) by (nonlinear_arith)
            requires
                increment >= 1,
                past >= RATE_SCALE,
        ;
        return RATE_SCALE;
    }
    assert(increment * past <= RATE_SCALE * RATE_SCALE) by (nonlinear_arith)
        requires
            increment <= RATE_SCALE,
            past < RATE_SCALE,
    ;
    let extra: u64 = increment * past;
    if extra >= RATE_SCALE - base {
        RATE_SCALE
    } else {
        base + extra
    }
}

/// The ramp never decreases as the pity counter grows.
pub proof fn lemma_ramp_monotone(base: int, increment: int, soft_start: int, p: int, q: int)
    requires
        increment >= 0,
        p <= q,
    ensures
        ramp_rate(base, increment, soft_start, p) <= ramp_rate(base, increment, soft_start, q),
{
    if p > soft_start {
        assert(increment * (p - soft_start) <= increment * (q - soft_start)) by (nonlinear_arith)
            requires
                increment >= 0,
                p <= q,
        ;
    } else if q > soft_start {
        assert(increment * (q - soft_start) >= 0) by (nonlinear_arith)
            requires
                increment >= 0,
                q > soft_start,
        ;
    }
}

} // verus!
