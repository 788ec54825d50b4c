//! Linear rescale of a signed 16-bit sample onto the duty range of the timer.

use vstd::prelude::*;

verus! {

/// Clipping headroom taken off both ends of the sample range before the
/// rescale. With any other value than zero, samples near the extremes would
/// fall outside the duty range, and `duty` would no longer verify without a
/// saturation step.
pub const AMPLIFY: i32 = 0;

/// The sample that maps to duty zero.
pub const SAMPLE_FLOOR: i32 = -32768 + AMPLIFY;

/// The sample that maps to the full duty.
pub const SAMPLE_CEIL: i32 = 32767 - AMPLIFY;

/// The duty for `sample` on a timer whose full duty is `max_duty`: the
/// sample's distance from the floor, scaled by `max_duty` over the width of
/// the sample range, rounded down.
pub open spec fn duty_of(max_duty: int, sample: int) -> int {
    (max_duty * (sample - SAMPLE_FLOOR)) / (SAMPLE_CEIL - SAMPLE_FLOOR)
}

/// Computes the duty for one sample. The product of two 16-bit quantities is
/// formed in 32 unsigned bits, where it cannot overflow.
pub fn duty(max_duty: u16, sample: i16) -> (d: u16)
    ensures
        d == duty_of(max_duty as int, sample as int),
        d <= max_duty,
{
    let offset: u32 = (sample as i32 - SAMPLE_FLOOR) as u32;
    let span: u32 = (SAMPLE_CEIL - SAMPLE_FLOOR) as u32;
    proof {
        lemma_scaled_range(max_duty as int, offset as int);
    }
    let scaled: u32 = max_duty as u32 * offset;
    (scaled / span) as u16
}

/// A full duty of at most 16 bits times an offset inside the sample range
/// stays within `max_duty` times the width of that range.
proof fn lemma_scaled_range(max_duty: int, offset: int)
    by (nonlinear_arith)
    requires
        0 <= max_duty <= 65535,
        0 <= offset <= 65535,
    ensures
        0 <= max_duty * offset <= max_duty * 65535,
        max_duty * offset <= 65535 * 65535,
{
}

/// The duty never leaves the range of the timer: it lies between zero and
/// `max_duty` for every sample.
pub proof fn lemma_duty_bounds(max_duty: u16, sample: i16)
    ensures
        0 <= duty_of(max_duty as int, sample as int) <= max_duty,
{
    lemma_scaled_range(max_duty as int, sample - SAMPLE_FLOOR);
}

/// The duty is monotonic in the sample: a sample that is no smaller gives a
/// duty that is no smaller.
pub proof fn lemma_duty_monotonic(max_duty: u16, v1: i16, v2: i16)
    requires
        v1 <= v2,
    ensures
        duty_of(max_duty as int, v1 as int) <= duty_of(max_duty as int, v2 as int),
{
    let m = max_duty as int;
    let a = v1 - SAMPLE_FLOOR;
    let b = v2 - SAMPLE_FLOOR;
    assert(m * a <= m * b) by (nonlinear_arith)
        requires
            0 <= m,
            a <= b,
    ;
}

/// A zero sample maps to the midscale duty, half of `max_duty` rounded down,
/// on every timer whose full duty is below the 16-bit maximum.
pub proof fn lemma_duty_midscale(max_duty: u16)
    requires
        max_duty < 65535,
    ensures
        duty_of(max_duty as int, 0) == max_duty / 2,
{
}

/// The ends of the sample range map to the ends of the duty range.
pub proof fn lemma_duty_endpoints(max_duty: u16)
    ensures
        duty_of(max_duty as int, -32768) == 0,
        duty_of(max_duty as int, 32767) == max_duty,
{
}

} // verus!
