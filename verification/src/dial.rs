//! Geometry and styling of the dial: the angle map from RPM values onto the
//! 270-degree sweep, the tiered tick marks with their colors and labels, and
//! the decimal readout.
//!
//! Angles are kept as integers in units of pi / (4 * max) radians. In those
//! units the start of the sweep (3*pi/4) is `3 * max`, the end (9*pi/4) is
//! `9 * max`, and a value `v` maps to `3 * max + 6 * v`: an exact linear map
//! with no rounding anywhere.

use vstd::prelude::*;

verus! {

/// Number of straight segments used to approximate the dial arc.
pub const ARC_SEGMENTS: u32 = 100;
/// Radius in pixels of the filled circle at the needle pivot.
pub const PIVOT_RADIUS: u32 = 5;
/// Length in pixels of the counter-weight stub opposite the needle.
pub const STUB_LENGTH: u32 = 20;

/// The two colors a tick or label can take.
#[derive(Clone, Copy, PartialEq, Eq, Structural, Debug)]
pub enum DialColor {
    Black,
    Red,
}

/// One tick mark of the dial: its RPM position, its angle in units of
/// pi / (4 * max) radians, its radial length and stroke thickness in pixels,
/// its color, and the label shown beside it (the RPM in thousands, present
/// only at multiples of 1000).
#[derive(Clone, Copy, Debug)]
pub struct Tick {
    pub rpm: u32,
    pub angle_units: u64,
    pub length: u32,
    pub thickness: u32,
    pub color: DialColor,
    pub label: Option<u32>,
}

/// The angle of value `v` on a dial with maximum `max`, in units of
/// pi / (4 * max) radians: `3 * max` is the start of the sweep and each unit
/// of value adds 6 units of angle.
pub open spec fn spec_angle_units(max: int, v: int) -> int {
    3 * max + 6 * v
}

/// Radial length in pixels of the tick at `rpm`: long at multiples of 1000,
/// medium at multiples of 500, short otherwise.
pub open spec fn spec_tick_length(rpm: u32) -> u32 {
    if rpm % 1000 == 0 {
        20
    } else if rpm % 500 == 0 {
        10
    } else {
        5
    }
}

/// Stroke thickness in pixels of the tick at `rpm`: heavier at multiples of
/// 1000.
pub open spec fn spec_tick_thickness(rpm: u32) -> u32 {
    if rpm % 1000 == 0 {
        2
    } else {
        1
    }
}

/// Color of the tick at `rpm`: the warning color exactly from the danger
/// threshold on.
pub open spec fn spec_tick_color(rpm: u32, threshold: u32) -> DialColor {
    if rpm >= threshold {
        DialColor::Red
    } else {
        DialColor::Black
    }
}

/// Label beside the tick at `rpm`: the RPM in thousands, only at multiples
/// of 1000.
pub open spec fn spec_tick_label(rpm: u32) -> Option<u32> {
    if rpm % 1000 == 0 {
        Some((rpm / 1000) as u32)
    } else {
        None
    }
}

/// The fully styled tick at `rpm` on a dial with maximum `max` and danger
/// threshold `threshold`.
pub open spec fn spec_tick(max: u32, threshold: u32, rpm: u32) -> Tick {
    Tick {
        rpm: rpm,
        angle_units: spec_angle_units(max as int, rpm as int) as u64,
        length: spec_tick_length(rpm),
        thickness: spec_tick_thickness(rpm),
        color: spec_tick_color(rpm, threshold),
        label: spec_tick_label(rpm),
    }
}

/// The angle of value `v` on a dial with maximum `max`, in units of
/// pi / (4 * max) radians.
pub fn angle_units(max: u32, v: u32) -> (u: u64)
    ensures
        u == spec_angle_units(max as int, v as int),
{
    3 * (max as u64) + 6 * (v as u64)
}

/// Build the tick at `rpm`.
pub fn make_tick(max: u32, threshold: u32, rpm: u32) -> (t: Tick)
    ensures
        t == spec_tick(max, threshold, rpm),
{
    let units: u64 = angle_units(max, rpm);
    let length: u32 = if rpm % 1000 == 0 {
        20
    } else if rpm % 500 == 0 {
        10
    } else {
        5
    };
    let thickness: u32 = if rpm % 1000 == 0 {
        2
    } else {
        1
    };
    let color: DialColor = if rpm >= threshold {
        DialColor::Red
    } else {
        DialColor::Black
    };
    let label: Option<u32> = if rpm % 1000 == 0 {
        Some(rpm / 1000)
    } else {
        None
    };
    Tick { rpm, angle_units: units, length, thickness, color, label }
}

/// All ticks of the dial, one every 100 RPM from 0 up to and including the
/// largest multiple of 100 not above `max`.
pub fn dial_ticks(max: u32, threshold: u32) -> (ticks: Vec<Tick>)
    ensures
        ticks@.len() == max / 100 + 1,
        forall|k: int|
            0 <= k < ticks@.len() ==> ticks@[k] == spec_tick(max, threshold, (100 * k) as u32),
{
    let n: u32 = max / 100 + 1;
    let mut ticks: Vec<Tick> = Vec::new();
    let mut i: u32 = 0;
    while i < n
        invariant
            i <= n,
            n == max / 100 + 1,
            ticks@.len() == i as int,
            forall|k: int|
                0 <= k < i as int ==> ticks@[k] == spec_tick(max, threshold, (100 * k) as u32),
        decreases n - i,
    {
        let rpm: u32 = 100 * i;
        let t: Tick = make_tick(max, threshold, rpm);
        ticks.push(t);
        i = i + 1;
    }
    ticks
}

/// The decimal digits of `n`, most significant first, as ASCII bytes.
pub open spec fn spec_digits(n: nat) -> Seq<u8>
    decreases n,
{
    if n < 10 {
        seq![(48 + n) as u8]
    } else {
        spec_digits(n / 10).push((48 + n % 10) as u8)
    }
}

/// Append the decimal digits of `n` to `out`.
fn push_digits(n: u32, out: &mut Vec<u8>)
    ensures
        final(out)@ == old(out)@ + spec_digits(n as nat),
    decreases n,
{
    if n < 10 {
        out.push(48 + (n as u8));
        proof {
            assert(old(out)@.push((48 + n) as u8) =~= old(out)@ + spec_digits(n as nat));
        }
    } else {
        push_digits(n / 10, out);
        out.push(48 + ((n % 10) as u8));
        proof {
            assert((old(out)@ + spec_digits((n / 10) as nat)).push((48 + n % 10) as u8) =~= old(
                out,
            )@ + spec_digits(n as nat));
        }
    }
}

/// The decimal rendering of `n`, most significant digit first, as ASCII
/// bytes.
pub fn readout_digits(n: u32) -> (digits: Vec<u8>)
    ensures
        digits@ == spec_digits(n as nat),
{
    let mut digits: Vec<u8> = Vec::new();
    push_digits(n, &mut digits);
    proof {
        assert(Seq::<u8>::empty() + spec_digits(n as nat) =~= spec_digits(n as nat));
    }
    digits
}

/// Law: the needle angle is a strictly increasing linear function of the
/// value. On a dial with maximum `max` it sends 0 to `3 * max` units
/// (3*pi/4 radians), `max` to `9 * max` units (9*pi/4 radians), and each
/// unit of value adds exactly 6 units of angle, so the map is monotonic and
/// has no jumps larger than one uniform step.
pub proof fn lemma_needle_angle_linear(max: int, v1: int, v2: int)
    requires
        0 <= v1 <= v2 <= max,
    ensures
        spec_angle_units(max, 0) == 3 * max,
        spec_angle_units(max, max) == 9 * max,
        spec_angle_units(max, v1) <= spec_angle_units(max, v2),
        v1 < v2 ==> spec_angle_units(max, v1) < spec_angle_units(max, v2),
        spec_angle_units(max, v1 + 1) == spec_angle_units(max, v1) + 6,
{
}

/// Law: a tick takes the warning color exactly when its RPM is at or above
/// the danger threshold, and the plain color exactly when it is below.
pub proof fn lemma_danger_color_iff(max: u32, threshold: u32, rpm: u32)
    ensures
        (spec_tick(max, threshold, rpm).color == DialColor::Red) <==> rpm >= threshold,
        (spec_tick(max, threshold, rpm).color == DialColor::Black) <==> rpm < threshold,
{
}

/// Law: every byte of the decimal readout is an ASCII digit.
pub proof fn lemma_digits_ascii(n: nat)
    ensures
        forall|i: int| 0 <= i < spec_digits(n).len() ==> 48 <= #[trigger] spec_digits(n)[i] <= 57,
    decreases n,
{
    if n < 10 {
        assert(spec_digits(n) =~= seq![(48 + n) as u8]);
        assert(spec_digits(n)[0] == (48 + n) as u8);
    } else {
        lemma_digits_ascii(n / 10);
        let prefix = spec_digits(n / 10);
        let d = (48 + n % 10) as u8;
        assert(spec_digits(n) =~= prefix.push(d));
        assert(forall|i: int|
            0 <= i < prefix.len() ==> #[trigger] prefix.push(d)[i] == prefix[i]);
        assert(prefix.push(d)[prefix.len() as int] == d);
    }
}

} // verus!
