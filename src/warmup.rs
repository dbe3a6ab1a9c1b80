//! Throttling while the group-type cache fills.
//!
//! Hotness is carried in parts per million (1_000_000 is a fully warm cache);
//! the base delay is in milliseconds, and the delay that comes out is in
//! nanoseconds, so the linear curve `base * (1 - hotness)` is exact.
use vstd::prelude::*;

verus! {

/// Hotness of a fully warm cache.
pub const FULL_HOTNESS_PPM: u32 = 1_000_000;

/// Hotness from which the cache counts as hot and no delay applies.
pub const HOT_CUTOFF_PPM: u32 = 900_000;

/// Nanoseconds in one millisecond.
pub const NANOS_PER_MILLI: u128 = 1_000_000;

#[derive(Clone, Copy, Debug, PartialEq, Eq, Structural)]
pub enum WarmState {
    Warming,
    Hot,
}

impl WarmState {
    /// The label reported beside the warming gauge.
    pub fn label(&self) -> (r: &'static str)
        ensures
            r@ == (match self {
                WarmState::Warming => "warming"@,
                WarmState::Hot => "hot"@,
            }),
    {
        match self {
            WarmState::Warming => "warming",
            WarmState::Hot => "hot",
        }
    }
}

/// What the warm-up gate decided for one batch.
#[derive(Clone, Copy, Debug, PartialEq, Eq, Structural)]
pub struct Admission {
    pub state: WarmState,
    /// How long the caller suspends before going on.
    pub delay_nanos: u128,
    /// The value of the warming gauge: the hotness, in parts per million.
    pub gauge_ppm: u32,
}

/// Hotness held to at most a full cache.
pub open spec fn clamped(hotness_ppm: int) -> int {
    if hotness_ppm > FULL_HOTNESS_PPM {
        FULL_HOTNESS_PPM as int
    } else {
        hotness_ppm
    }
}

pub open spec fn is_hot(hotness_ppm: int) -> bool {
    clamped(hotness_ppm) >= HOT_CUTOFF_PPM
}

/// The delay, in nanoseconds, for a base delay in milliseconds: none once hot,
/// else `base * (1 - hotness)`.
pub open spec fn warmup_delay(base_delay_ms: int, hotness_ppm: int) -> int {
    if is_hot(hotness_ppm) {
        0
    } else {
        base_delay_ms * (FULL_HOTNESS_PPM - clamped(hotness_ppm))
    }
}

/// Decides the delay and the reported state for a batch, given how warm the
/// cache is.
pub fn gate(base_delay_ms: u64, hotness_ppm: u32) -> (r: Admission)
    ensures
        r.delay_nanos == warmup_delay(base_delay_ms as int, hotness_ppm as int),
        r.state == (if is_hot(hotness_ppm as int) {
            WarmState::Hot
        } else {
            WarmState::Warming
        }),
        r.gauge_ppm == clamped(hotness_ppm as int),
{
    let h: u32 = if hotness_ppm > FULL_HOTNESS_PPM {
        FULL_HOTNESS_PPM
    } else {
        hotness_ppm
    };
    if h >= HOT_CUTOFF_PPM {
        Admission { state: WarmState::Hot, delay_nanos: 0, gauge_ppm: h }
    } else {
        let rest: u128 = (FULL_HOTNESS_PPM - h) as u128;
        assert(base_delay_ms as int * rest as int <= u64::MAX as int * 1_000_000) by (nonlinear_arith)
            requires
                rest <= 1_000_000,
        ;
        let delay: u128 = (base_delay_ms as u128) * rest;
        Admission { state: WarmState::Warming, delay_nanos: delay, gauge_ppm: h }
    }
}

/// The warm-up curve: no delay from the cutoff on; below it the delay falls
/// strictly as hotness grows (for a positive base delay), and an empty cache
/// waits the whole base delay.
pub proof fn lemma_warmup_curve(base_delay_ms: u64, h1: u32, h2: u32)
    ensures
        h1 >= HOT_CUTOFF_PPM ==> warmup_delay(base_delay_ms as int, h1 as int) == 0,
        (base_delay_ms > 0 && h1 < h2 && h2 < HOT_CUTOFF_PPM) ==> warmup_delay(
            base_delay_ms as int,
            h1 as int,
        ) > warmup_delay(base_delay_ms as int, h2 as int),
        warmup_delay(base_delay_ms as int, 0) == base_delay_ms * NANOS_PER_MILLI,
{
    if base_delay_ms > 0 && h1 < h2 && h2 < HOT_CUTOFF_PPM {
        let b = base_delay_ms as int;
        assert(b * (1_000_000 - h1 as int) > b * (1_000_000 - h2 as int)) by (nonlinear_arith)
            requires
                b > 0,
                h1 < h2,
        ;
    }
}

} // verus!
