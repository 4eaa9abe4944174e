//! Retry delays: capped exponential growth with optional jitter.
use vstd::prelude::*;
use vstd::arithmetic::power::*;

use crate::model::RetryConfig;

verus! {

/// Largest value of a `u64`, as an integer.
pub open spec fn u64_top() -> int {
    0xffff_ffff_ffff_ffff
}

/// `min(initial · base^attempt, max)`.
pub open spec fn capped_delay(initial: int, base: int, attempt: nat, max: int) -> int {
    let raw = initial * pow(base, attempt);
    if raw < max {
        raw
    } else {
        max
    }
}

/// The capped delay of `config` for a zero-based attempt.
pub open spec fn config_delay(config: RetryConfig, attempt: nat) -> int {
    capped_delay(
        config.initial_delay_ms as int,
        config.exponential_base as int,
        attempt,
        config.max_delay_ms as int,
    )
}

/// The jitter factor in thousandths, from 800 to 1200, that a random
/// sample selects.
pub open spec fn jitter_permille(sample: u32) -> int {
    800 + (sample % 401) as int
}

/// The delay after jitter: the capped delay scaled by the jitter factor,
/// rounded down and kept within `u64`.
pub open spec fn jittered_delay(capped: int, sample: u32) -> int {
    let d = capped * jitter_permille(sample) / 1000;
    if d <= u64_top() {
        d
    } else {
        u64_top()
    }
}

/// The delay before a zero-based attempt, given a random sample for the
/// jitter (ignored when jitter is off).
pub open spec fn retry_delay(config: RetryConfig, attempt: nat, sample: u32) -> int {
    if config.jitter {
        jittered_delay(config_delay(config, attempt), sample)
    } else {
        config_delay(config, attempt)
    }
}

proof fn lemma_pow_step(base: int, i: nat)
    ensures
        pow(base, i + 1) == base * pow(base, i),
{
    reveal(pow);
}

/// Without jitter the delay is exactly `min(initial · base^k, max)`; with
/// jitter it is never negative and at most 1.2 times that value.
pub proof fn lemma_delay_bounds(config: RetryConfig, attempt: nat, sample: u32)
    ensures
        !config.jitter ==> retry_delay(config, attempt, sample) == config_delay(config, attempt),
        config.jitter ==> 0 <= retry_delay(config, attempt, sample),
        config.jitter ==> 10 * retry_delay(config, attempt, sample) <= 12 * config_delay(
            config,
            attempt,
        ),
{
    let c = config_delay(config, attempt);
    let raw = config.initial_delay_ms as int * pow(config.exponential_base as int, attempt);
    if config.exponential_base > 0 {
        lemma_pow_positive(config.exponential_base as int, attempt);
    } else if attempt > 0 {
        lemma_pow_step(0, (attempt - 1) as nat);
    } else {
        reveal(pow);
    }
    assert(raw >= 0) by (nonlinear_arith)
        requires
            raw == config.initial_delay_ms as int * pow(config.exponential_base as int, attempt),
            config.initial_delay_ms >= 0,
            pow(config.exponential_base as int, attempt) >= 0,
    ;
    assert(c >= 0);
    let f = jitter_permille(sample);
    assert(800 <= f <= 1200);
    let d = c * f / 1000;
    assert(0 <= d && 10 * d <= 12 * c) by (nonlinear_arith)
        requires
            c >= 0,
            800 <= f <= 1200,
            d == c * f / 1000,
    ;
}

/// The capped exponential delay of `config` for a zero-based attempt.
pub fn exponential_delay(config: &RetryConfig, attempt: u32) -> (r: u64)
    ensures
        r == config_delay(*config, attempt as nat),
{
    let initial = config.initial_delay_ms;
    let base = config.exponential_base;
    let max = config.max_delay_ms;
    if base == 0 {
        proof {
            reveal(pow);
            if attempt > 0 {
                lemma_pow_step(0, (attempt - 1) as nat);
                assert(initial as int * 0 == 0);
            }
        }
        if attempt == 0 {
            return if initial < max {
                initial
            } else {
                max
            };
        } else {
            return 0;
        }
    }
    let mut cur: u64 = if initial < max {
        initial
    } else {
        max
    };
    proof {
        reveal(pow);
        assert(pow(base as int, 0) == 1);
    }
    let mut i: u32 = 0;
    while i < attempt
        invariant
            base >= 1,
            i <= attempt,
            cur as int == capped_delay(initial as int, base as int, i as nat, max as int),
            initial == config.initial_delay_ms,
            base == config.exponential_base,
            max == config.max_delay_ms,
        decreases attempt - i,
    {
        let ghost raw_i = initial as int * pow(base as int, i as nat);
        proof {
            lemma_pow_step(base as int, i as nat);
            lemma_pow_positive(base as int, i as nat);
        }
        let ghost raw_next = initial as int * pow(base as int, (i + 1) as nat);
        assert(raw_next == raw_i * base) by (nonlinear_arith)
            requires
                raw_next == initial as int * pow(base as int, (i + 1) as nat),
                pow(base as int, (i + 1) as nat) == base * pow(base as int, i as nat),
                raw_i == initial as int * pow(base as int, i as nat),
        ;
        assert(raw_i >= 0) by (nonlinear_arith)
            requires
                raw_i == initial as int * pow(base as int, i as nat),
                pow(base as int, i as nat) > 0,
        ;
        if cur < max {
            assert(cur as int == raw_i);
            if cur > max / base {
                assert(raw_next > max) by (nonlinear_arith)
                    requires
                        raw_next == raw_i * base,
                        raw_i == cur,
                        cur > max / base,
                        base >= 1,
                ;
                cur = max;
            } else {
                assert(cur * base <= max) by (nonlinear_arith)
                    requires
                        cur <= max / base,
                        base >= 1,
                ;
                cur = cur * base;
            }
        } else {
            assert(raw_i >= max);
            assert(raw_next >= raw_i) by (nonlinear_arith)
                requires
                    raw_next == raw_i * base,
                    raw_i >= 0,
                    base >= 1,
            ;
        }
        i = i + 1;
    }
    cur
}

/// The delay before a zero-based attempt; `jitter_sample` is a random
/// number that picks the jitter factor and is ignored when jitter is off.
pub fn calculate_delay(config: &RetryConfig, attempt: u32, jitter_sample: u32) -> (r: u64)
    ensures
        r == retry_delay(*config, attempt as nat, jitter_sample),
{
    let capped = exponential_delay(config, attempt);
    if !config.jitter {
        return capped;
    }
    let factor: u128 = 800 + (jitter_sample % 401) as u128;
    assert(capped as u128 * factor <= 0xffff_ffff_ffff_ffff_u128 * 1200) by (nonlinear_arith)
        requires
            factor <= 1200,
            capped <= 0xffff_ffff_ffff_ffff_u64,
    ;
    let d: u128 = capped as u128 * factor / 1000;
    if d <= 0xffff_ffff_ffff_ffff_u128 {
        d as u64
    } else {
        0xffff_ffff_ffff_ffff_u64
    }
}

} // verus!
