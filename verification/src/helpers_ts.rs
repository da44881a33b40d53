//! Helpers for the time-series plots: clock times, time ranges, axis
//! ranges and pulse traces.

use vstd::prelude::*;
use vstd::arithmetic::power2::{lemma2_to64, lemma2_to64_rest, lemma_pow2_strictly_increases, pow2};
use vstd::bits::{lemma_u64_shl_is_mul, lemma_u64_shr_is_div};

use crate::numeric::{push_two_digits, zero_padded};
use crate::text::str_eq;
use crate::time_series_plot::{SinglePoint, TimeSeriesData, TimeSeriesView, series_view, F32_ONE, F32_ZERO};

verus! {

// ---------------------------------------------------------------------
// Clock time.
// ---------------------------------------------------------------------

/// `hh:mm:ss` of the UTC time of day of a Unix time stamp.
pub open spec fn hms(unix_time: u64) -> Seq<char> {
    let s = unix_time % 86400;
    zero_padded((s / 3600) as nat, 2) + seq![':'] + zero_padded(((s % 3600) / 60) as nat, 2)
        + seq![':'] + zero_padded((s % 60) as nat, 2)
}

/// The UTC time of day of a Unix time stamp, as `hh:mm:ss`.
pub fn unix_time_to_hms(unix_time: u64) -> (r: String)
    ensures
        r@ == hms(unix_time),
{
    let seconds_in_day = unix_time % 86400;
    let hours = seconds_in_day / 3600;
    let minutes = (seconds_in_day % 3600) / 60;
    let seconds = seconds_in_day % 60;
    let mut r = String::new();
    push_two_digits(&mut r, hours);
    crate::text::string_push(&mut r, ':');
    push_two_digits(&mut r, minutes);
    crate::text::string_push(&mut r, ':');
    push_two_digits(&mut r, seconds);
    assert(r@ =~= hms(unix_time));
    r
}

// ---------------------------------------------------------------------
// Time range.
// ---------------------------------------------------------------------

/// The times of a list of points.
pub open spec fn point_times(ps: Seq<SinglePoint>) -> Seq<u64> {
    ps.map_values(|p: SinglePoint| p.unix_time)
}

/// The times of the single-trace points of every plot, plot by plot.
pub open spec fn all_times(ds: Seq<TimeSeriesView>) -> Seq<u64>
    decreases ds.len(),
{
    if ds.len() == 0 {
        seq![]
    } else {
        all_times(ds.drop_last()) + point_times(ds.last().points)
    }
}

/// The least of a list of times, `u64::MAX` for none.
pub open spec fn least(s: Seq<u64>) -> u64
    decreases s.len(),
{
    if s.len() == 0 {
        u64::MAX
    } else if s.last() < least(s.drop_last()) {
        s.last()
    } else {
        least(s.drop_last())
    }
}

/// The greatest of a list of times, `0` for none.
pub open spec fn greatest(s: Seq<u64>) -> u64
    decreases s.len(),
{
    if s.len() == 0 {
        0
    } else if s.last() > greatest(s.drop_last()) {
        s.last()
    } else {
        greatest(s.drop_last())
    }
}

/// The time range of a set of plots: the least and greatest time of their
/// single-trace points, or `(0, 1)` where the least is `u64::MAX` (in
/// particular where there is no point).
pub open spec fn time_range(ds: Seq<TimeSeriesView>) -> (u64, u64) {
    let t = all_times(ds);
    if least(t) == u64::MAX {
        (0, 1)
    } else {
        (least(t), greatest(t))
    }
}

/// The overall time range of the plots.
pub fn calculate_time_range(datasets: &[TimeSeriesData]) -> (r: (u64, u64))
    ensures
        r == time_range(series_view(datasets@)),
{
    let mut time_min: u64 = u64::MAX;
    let mut time_max: u64 = 0;
    let ghost mut seen: Seq<u64> = seq![];
    let ghost ds = series_view(datasets@);
    for i in 0..datasets.len()
        invariant
            ds == series_view(datasets@),
            seen == all_times(ds.take(i as int)),
            time_min == least(seen),
            time_max == greatest(seen),
    {
        let pts = &datasets[i].time_series_points;
        let ghost base = seen;
        for j in 0..pts.len()
            invariant
                pts@ == ds[i as int].points,
                seen == base + point_times(pts@.take(j as int)),
                time_min == least(seen),
                time_max == greatest(seen),
        {
            let t = pts[j].unix_time;
            if t < time_min {
                time_min = t;
            }
            if t > time_max {
                time_max = t;
            }
            proof {
                assert(point_times(pts@.take(j + 1)) =~= point_times(pts@.take(j as int)).push(t));
                assert(base + point_times(pts@.take(j + 1)) =~= (base + point_times(
                    pts@.take(j as int),
                )).push(t));
                seen = base + point_times(pts@.take(j + 1));
                assert(seen.drop_last() =~= base + point_times(pts@.take(j as int)));
            }
        }
        proof {
            assert(pts@.take(pts@.len() as int) =~= pts@);
            assert(ds.take(i + 1).drop_last() =~= ds.take(i as int));
        }
    }
    proof {
        assert(ds.take(datasets@.len() as int) =~= ds);
    }
    if time_min == u64::MAX {
        (0, 1)
    } else {
        (time_min, time_max)
    }
}

/// The least of a list of times is at most each of them, and the greatest
/// at least each of them.
proof fn lemma_least_greatest_bound(s: Seq<u64>)
    ensures
        forall|k: int| 0 <= k < s.len() ==> least(s) <= #[trigger] s[k] && s[k] <= greatest(s),
    decreases s.len(),
{
    if s.len() > 0 {
        lemma_least_greatest_bound(s.drop_last());
        assert forall|k: int| 0 <= k < s.len() implies least(s) <= #[trigger] s[k] && s[k] <= greatest(
            s,
        ) by {
            if k < s.len() - 1 {
                assert(s[k] == s.drop_last()[k]);
            }
        }
    }
}

/// The time range of a set of plots covers the time of every single-trace
/// point, where some point lies before the last representable time (with
/// every point at `u64::MAX` the range falls back to `(0, 1)`).
pub proof fn lemma_time_range_covers(ds: Seq<TimeSeriesView>)
    requires
        least(all_times(ds)) < u64::MAX,
    ensures
        forall|k: int|
            0 <= k < all_times(ds).len() ==> time_range(ds).0 <= #[trigger] all_times(ds)[k]
                && all_times(ds)[k] <= time_range(ds).1,
{
    lemma_least_greatest_bound(all_times(ds));
}

// ---------------------------------------------------------------------
// Y-axis range.
// ---------------------------------------------------------------------

/// How the y-axis range of a plot is chosen.
#[derive(Clone, Copy, Debug)]
pub enum YRange {
    /// `0.0 ..= 1.0`: the plot has no single-trace point.
    Unit,
    /// `0.0 ..= n + 1`: an impulse plot with `n` levels.
    ImpulseLevels(usize),
    /// `0.0 ..= 4.0`: an impulse plot without levels.
    ImpulseDefault,
    /// `0.0 ..= n`: a multi-trace plot with `n` levels.
    TraceLevels(usize),
    /// `0.0 ..= 2.0`: a multi-trace plot without levels.
    TraceDefault,
    /// From the least to the greatest point value, widened by a tenth of
    /// the span (or by `0.1` where the span is zero).
    FromPoints,
}

/// The y-axis rule of a plot.
pub open spec fn y_range_rule(d: TimeSeriesView) -> YRange {
    if d.points.len() == 0 {
        YRange::Unit
    } else if d.data_type == "Impulse"@ {
        if d.levels.len() > 0 {
            YRange::ImpulseLevels(d.levels.len() as usize)
        } else {
            YRange::ImpulseDefault
        }
    } else if d.data_type == "DualDigital"@ || d.data_type == "ImpulseDigitalCombo"@ {
        if d.levels.len() > 0 {
            YRange::TraceLevels(d.levels.len() as usize)
        } else {
            YRange::TraceDefault
        }
    } else {
        YRange::FromPoints
    }
}

/// The y-axis rule of a plot; the range itself is computed in `f32`.
pub fn calculate_y_range(dataset: &TimeSeriesData) -> (r: YRange)
    ensures
        r == y_range_rule(dataset@),
{
    if dataset.time_series_points.len() == 0 {
        return YRange::Unit;
    }
    let n = dataset.levels.len();
    if str_eq(dataset.data_type.as_str(), "Impulse") {
        if n > 0 {
            return YRange::ImpulseLevels(n);
        } else {
            return YRange::ImpulseDefault;
        }
    }
    if str_eq(dataset.data_type.as_str(), "DualDigital") || str_eq(
        dataset.data_type.as_str(),
        "ImpulseDigitalCombo",
    ) {
        if n > 0 {
            return YRange::TraceLevels(n);
        } else {
            return YRange::TraceDefault;
        }
    }
    YRange::FromPoints
}

// ---------------------------------------------------------------------
// Pulses.
// ---------------------------------------------------------------------

/// The exponent field of an `f32` bit pattern.
pub open spec fn f32_exponent(b: u32) -> nat {
    ((b / 0x80_0000) % 0x100) as nat
}

/// The fraction field of an `f32` bit pattern.
pub open spec fn f32_fraction(b: u32) -> nat {
    (b % 0x80_0000) as nat
}

/// `v as u64` for the `f32` with bit pattern `b`: the value rounded toward
/// zero, `0` for NaN and negative values, `u64::MAX` for values too large.
pub open spec fn f32_to_u64(b: u32) -> u64 {
    let e = f32_exponent(b);
    let m = f32_fraction(b) + 0x80_0000;
    if e == 0xff && f32_fraction(b) != 0 {
        0
    } else if b >= 0x8000_0000 {
        0
    } else if e == 0xff {
        u64::MAX
    } else if e < 127 {
        0
    } else if e - 127 >= 64 {
        u64::MAX
    } else if e - 127 >= 23 {
        (m * pow2((e - 127 - 23) as nat)) as u64
    } else {
        (m / pow2((23 - (e - 127)) as nat)) as u64
    }
}

/// `v as u64` for the `f32` with bit pattern `b`.
pub fn f32_bits_to_u64(b: u32) -> (r: u64)
    ensures
        r == f32_to_u64(b),
{
    let e = ((b / 0x80_0000) % 0x100) as u64;
    let frac = (b % 0x80_0000) as u64;
    let m = frac + 0x80_0000;
    if e == 0xff && frac != 0 {
        0
    } else if b >= 0x8000_0000 {
        0
    } else if e == 0xff {
        u64::MAX
    } else if e < 127 {
        0
    } else if e - 127 >= 64 {
        u64::MAX
    } else if e - 127 >= 23 {
        let sh = e - 127 - 23;
        proof {
            lemma2_to64();
            lemma2_to64_rest();
            if sh < 40 {
                lemma_pow2_strictly_increases(sh as nat, 40);
            }
            assert(m * pow2(sh as nat) <= 0xff_ffff * pow2(40)) by (nonlinear_arith)
                requires
                    m <= 0xff_ffff,
                    pow2(sh as nat) <= pow2(40),
            ;
            assert(pow2(40) == 0x100_0000_0000);
            assert(0xff_ffff * 0x100_0000_0000 <= u64::MAX);
            lemma_u64_shl_is_mul(m, sh);
        }
        m << sh
    } else {
        let sh = 23 - (e - 127);
        proof {
            lemma_u64_shr_is_div(m, sh);
        }
        m >> sh
    }
}

/// The start of an event that ended at `end` after lasting `duration`:
/// `end - duration`, or the trip's start where the event lasted longer than
/// the time since the trip's start.
pub open spec fn event_start(end: u64, duration: u64, trip_start: u64) -> u64 {
    if end >= duration && end - duration >= trip_start {
        (end - duration) as u64
    } else {
        trip_start
    }
}

/// The start of an event, see [`event_start`].
pub fn event_start_exec(end: u64, duration: u64, trip_start: u64) -> (r: u64)
    ensures
        r == event_start(end, duration, trip_start),
{
    if end >= duration && end - duration >= trip_start {
        end - duration
    } else {
        trip_start
    }
}

/// The points of the pulse of one event point.
pub open spec fn pulse_of(p: SinglePoint, trip_start: u64, digital: bool, baseline: u32) -> Seq<
    SinglePoint,
> {
    let duration = if digital {
        f32_to_u64(p.point_value)
    } else {
        0
    };
    let start = event_start(p.unix_time, duration, trip_start);
    let level = if digital {
        F32_ONE
    } else {
        p.point_value
    };
    (if start > trip_start {
        seq![SinglePoint { unix_time: start, point_value: baseline }]
    } else {
        seq![]
    }) + seq![
        SinglePoint { unix_time: start, point_value: level },
        SinglePoint { unix_time: p.unix_time, point_value: level },
        SinglePoint { unix_time: p.unix_time, point_value: baseline },
    ]
}

/// The pulses of a list of event points, one after the other.
pub open spec fn pulses(ev: Seq<SinglePoint>, trip_start: u64, digital: bool, baseline: u32) -> Seq<
    SinglePoint,
>
    decreases ev.len(),
{
    if ev.len() == 0 {
        seq![]
    } else {
        pulses(ev.drop_last(), trip_start, digital, baseline) + pulse_of(
            ev.last(),
            trip_start,
            digital,
            baseline,
        )
    }
}

/// The pulse trace of a list of event points: the baseline at the trip's
/// start, a pulse for each event, the baseline at the trip's end. A
/// `Digital` pulse is at level 1 and lasts the point's value in seconds,
/// ending at the point's time and starting no earlier than the trip's start;
/// any other pulse is instantaneous, at the
/// point's value; an `Impulse` trace rests at 1, any other at 0.
pub open spec fn pulse_trace(ev: Seq<SinglePoint>, trip_start: u64, trip_end: u64, data_type: Seq<char>) -> Seq<SinglePoint> {
    let baseline = if data_type == "Impulse"@ {
        F32_ONE
    } else {
        F32_ZERO
    };
    seq![SinglePoint { unix_time: trip_start, point_value: baseline }] + pulses(
        ev,
        trip_start,
        data_type == "Digital"@,
        baseline,
    ) + seq![SinglePoint { unix_time: trip_end, point_value: baseline }]
}

/// Appends the pulse of one event point.
fn push_pulse(r: &mut Vec<SinglePoint>, p: SinglePoint, trip_start: u64, digital: bool, baseline: u32)
    ensures
        final(r)@ == old(r)@ + pulse_of(p, trip_start, digital, baseline),
{
    let duration: u64 = if digital {
        f32_bits_to_u64(p.point_value)
    } else {
        0
    };
    let start = event_start_exec(p.unix_time, duration, trip_start);
    let level = if digital {
        F32_ONE
    } else {
        p.point_value
    };
    if start > trip_start {
        r.push(SinglePoint { unix_time: start, point_value: baseline });
    }
    r.push(SinglePoint { unix_time: start, point_value: level });
    r.push(SinglePoint { unix_time: p.unix_time, point_value: level });
    r.push(SinglePoint { unix_time: p.unix_time, point_value: baseline });
    assert(final(r)@ =~= old(r)@ + pulse_of(p, trip_start, digital, baseline));
}

/// Turns event points into a pulse trace, see [`pulse_trace`].
pub fn convert_to_pulse_data(ev_points: &[SinglePoint], trip_start: u64, trip_end: u64, data_type: &str) -> (r:
    Vec<SinglePoint>)
    ensures
        r@ == pulse_trace(ev_points@, trip_start, trip_end, data_type@),
{
    let impulse = str_eq(data_type, "Impulse");
    let digital = str_eq(data_type, "Digital");
    let baseline: u32 = if impulse {
        F32_ONE
    } else {
        F32_ZERO
    };
    let mut r: Vec<SinglePoint> = Vec::new();
    r.push(SinglePoint { unix_time: trip_start, point_value: baseline });
    for i in 0..ev_points.len()
        invariant
            baseline == (if data_type@ == "Impulse"@ {
                F32_ONE
            } else {
                F32_ZERO
            }),
            digital == (data_type@ == "Digital"@),
            r@ == seq![SinglePoint { unix_time: trip_start, point_value: baseline }] + pulses(
                ev_points@.take(i as int),
                trip_start,
                digital,
                baseline,
            ),
    {
        let p = ev_points[i];
        let ghost before = r@;
        push_pulse(&mut r, p, trip_start, digital, baseline);
        proof {
            assert(ev_points@.take(i + 1).drop_last() =~= ev_points@.take(i as int));
            assert(ev_points@.take(i + 1).last() == p);
            assert(r@ =~= before + pulse_of(p, trip_start, digital, baseline));
        }
    }
    r.push(SinglePoint { unix_time: trip_end, point_value: baseline });
    assert(ev_points@.take(ev_points@.len() as int) =~= ev_points@);
    r
}

} // verus!
