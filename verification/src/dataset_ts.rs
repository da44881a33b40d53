//! The plots of one trip: battery voltage, speed, excess idling and one
//! plot for each kind of event that has a time-series meaning.
//!
//! The values of the plots are `f32`. The library does not compute with
//! floats: the caller parses each detail value as `f32` and hands in the
//! bit patterns ([`ScrapingReadings`]); the library chooses which values go
//! where, converts speeds to `f32` bit patterns and builds the pulse traces
//! with integer arithmetic.

use vstd::prelude::*;

use crate::event_detail::pairs_view;
use crate::float_bits::{u32_as_f32, u32_as_f32_bits};
use crate::helpers_ts::{
    convert_to_pulse_data, event_start, event_start_exec, greatest, least, pulse_trace,
};
use crate::numeric::{parse_unsigned, unsigned_value};
use crate::scraper::{ScrapedData, ScrapedView, Scraper};
use crate::text::{chars_of, owned, str_eq};
use crate::time_series_plot::{
    series_view, SinglePoint, TimeSeriesData, TimeSeriesView, F32_HALF, F32_ONE, F32_THREE, F32_TWO,
    F32_ZERO,
};

verus! {

// ---------------------------------------------------------------------
// Readings.
// ---------------------------------------------------------------------

/// The `f32` readings of one detail value: the bit pattern of the value
/// parsed as `f32`, and the bit pattern of that `f32` plus one.
#[derive(Clone, Copy, Debug)]
pub struct DetailReading {
    pub bits: u32,
    pub plus_one_bits: u32,
}

/// The `f32` readings of one event: for each detail value, in order, its
/// reading, or `None` where the value does not parse as `f32`. A detail
/// without a reading counts as one that does not parse.
pub struct ScrapingReadings {
    pub details: Vec<Option<DetailReading>>,
}

/// One event together with its readings.
pub struct EventRow {
    pub rec: ScrapedView,
    pub details: Seq<Option<DetailReading>>,
}

/// The events of a scraper paired with their readings.
pub open spec fn rows_of(scr: Seq<ScrapedData>, rd: Seq<ScrapingReadings>) -> Seq<EventRow> {
    Seq::new(
        scr.len(),
        |i: int| EventRow { rec: scr[i]@, details: rd[i].details@ },
    )
}

/// The events of trip `trip`, in order.
pub open spec fn trip_rows(rows: Seq<EventRow>, trip: Seq<char>) -> Seq<EventRow>
    decreases rows.len(),
{
    if rows.len() == 0 {
        seq![]
    } else if rows.last().rec.trip_num == trip {
        trip_rows(rows.drop_last(), trip).push(rows.last())
    } else {
        trip_rows(rows.drop_last(), trip)
    }
}

/// The times of a list of events.
pub open spec fn row_times(t: Seq<EventRow>) -> Seq<u64> {
    t.map_values(|r: EventRow| r.rec.unix_time)
}

/// The position of the first detail labelled `tag`.
pub open spec fn find_tag(d: Seq<(Seq<char>, Seq<char>)>, tag: Seq<char>) -> Option<int>
    decreases d.len(),
{
    if d.len() == 0 {
        None
    } else {
        match find_tag(d.drop_last(), tag) {
            Some(k) => Some(k),
            None => if d.last().0 == tag {
                Some(d.len() - 1)
            } else {
                None
            },
        }
    }
}

/// The reading of detail `k` of an event.
pub open spec fn reading(r: EventRow, k: int) -> Option<DetailReading> {
    if 0 <= k < r.details.len() {
        r.details[k]
    } else {
        None
    }
}

/// The reading of the first detail labelled `tag`.
pub open spec fn tag_reading(r: EventRow, tag: Seq<char>) -> Option<DetailReading> {
    match find_tag(r.rec.ev_detail, tag) {
        Some(k) => reading(r, k),
        None => None,
    }
}

/// The value of the first detail labelled `tag`, read as a `u64`.
pub open spec fn tag_u64(r: EventRow, tag: Seq<char>) -> Option<u64> {
    match find_tag(r.rec.ev_detail, tag) {
        Some(k) => match unsigned_value(r.rec.ev_detail[k].1, u64::MAX as nat) {
            Ok(v) => Some(v as u64),
            Err(_) => None,
        },
        None => None,
    }
}

// ---------------------------------------------------------------------
// Points.
// ---------------------------------------------------------------------

/// A point.
pub open spec fn pt(t: u64, v: u32) -> SinglePoint {
    SinglePoint { unix_time: t, point_value: v }
}

/// A square pulse at `level` from `start` to `end`, on a zero baseline.
pub open spec fn square(start: u64, end: u64, level: u32) -> Seq<SinglePoint> {
    seq![pt(start, F32_ZERO), pt(start, level), pt(end, level), pt(end, F32_ZERO)]
}

/// The kinds of event that get a plot of their own, in the order of their
/// names.
#[derive(Clone, Copy, Debug, PartialEq, Eq)]
pub enum EventName {
    EngineTemp,
    Impact,
    LowCoolant,
    OffSeat,
    OilPressure,
    Overload,
    Overspeed,
    Unbuckled,
    ZoneChange,
    ZoneOverspeed,
    ZoneTransition,
}

/// The event type of a plotted kind.
pub open spec fn name_text(n: EventName) -> Seq<char> {
    match n {
        EventName::EngineTemp => "ENGINETEMP"@,
        EventName::Impact => "IMPACT"@,
        EventName::LowCoolant => "LOWCOOLANT"@,
        EventName::OffSeat => "OFFSEAT"@,
        EventName::OilPressure => "OILPRESSURE"@,
        EventName::Overload => "OVERLOAD"@,
        EventName::Overspeed => "OVERSPEED"@,
        EventName::Unbuckled => "UNBUCKLED"@,
        EventName::ZoneChange => "ZONECHANGE"@,
        EventName::ZoneOverspeed => "ZONEOVERSPEED"@,
        EventName::ZoneTransition => "ZONETRANSITION"@,
    }
}

/// The event type of a plotted kind.
pub fn name_str(n: EventName) -> (r: &'static str)
    ensures
        r@ == name_text(n),
{
    match n {
        EventName::EngineTemp => "ENGINETEMP",
        EventName::Impact => "IMPACT",
        EventName::LowCoolant => "LOWCOOLANT",
        EventName::OffSeat => "OFFSEAT",
        EventName::OilPressure => "OILPRESSURE",
        EventName::Overload => "OVERLOAD",
        EventName::Overspeed => "OVERSPEED",
        EventName::Unbuckled => "UNBUCKLED",
        EventName::ZoneChange => "ZONECHANGE",
        EventName::ZoneOverspeed => "ZONEOVERSPEED",
        EventName::ZoneTransition => "ZONETRANSITION",
    }
}

/// What one event contributes to a series.
#[derive(Clone, Copy, Debug)]
pub enum Series {
    /// Its battery voltage.
    Battery,
    /// Its speed, as `f32`.
    Speed,
    /// A marker at 1 for the start of excess idling.
    IdleStart,
    /// A pulse at 1 for a period of excess idling.
    IdlePulse,
    /// Its duration, for events of the kind.
    Duration(EventName),
    /// Its impact severity.
    Severity,
    /// Its zone output plus one, for events of the kind.
    ZoneOutput(EventName),
    /// A pulse for an unbuckled seat: the driver's at 1 (`true`), the
    /// crew's at 0.5 (`false`).
    Seat(bool),
}

/// The level of an impact severity: `-` is 1, `W` is 2, `C` is 3, any other
/// value its `f32` reading, or 1 where it has none.
pub open spec fn severity_level(v: Seq<char>, rd: Option<DetailReading>) -> u32 {
    if v == "-"@ {
        F32_ONE
    } else if v == "W"@ {
        F32_TWO
    } else if v == "C"@ {
        F32_THREE
    } else {
        match rd {
            Some(x) => x.bits,
            None => F32_ONE,
        }
    }
}

/// Whether an unbuckled event is for the given seat owner.
pub open spec fn seat_is(r: EventRow, owner: Seq<char>) -> bool {
    match find_tag(r.rec.ev_detail, "Seat owner"@) {
        Some(k) => r.rec.ev_detail[k].1 == owner,
        None => false,
    }
}

/// A timed pulse that ends at the event and lasts the `u64` value of its
/// detail `tag`, starting no earlier than the trip's start, or nothing where
/// there is no such value.
pub open spec fn timed_pulse(r: EventRow, tag: Seq<char>, trip_start: u64, level: u32) -> Seq<
    SinglePoint,
> {
    match tag_u64(r, tag) {
        Some(d) => square(event_start(r.rec.unix_time, d, trip_start), r.rec.unix_time, level),
        None => seq![],
    }
}

/// A point at the event's time with the reading of its detail `tag`, or
/// nothing where there is no reading.
pub open spec fn reading_point(r: EventRow, tag: Seq<char>, plus_one: bool) -> Seq<SinglePoint> {
    match tag_reading(r, tag) {
        Some(x) => seq![pt(r.rec.unix_time, if plus_one { x.plus_one_bits } else { x.bits })],
        None => seq![],
    }
}

/// The points that event `r` contributes to series `k`.
pub open spec fn row_points(k: Series, r: EventRow, trip_start: u64) -> Seq<SinglePoint> {
    let et = r.rec.event_type;
    let t = r.rec.unix_time;
    match k {
        Series::Battery => reading_point(r, "Battery voltage"@, false),
        Series::Speed => seq![pt(t, u32_as_f32(r.rec.gps_speed))],
        Series::IdleStart => if et == "XSIDLESTART"@ {
            seq![pt(t, F32_ONE)]
        } else {
            seq![]
        },
        Series::IdlePulse => if et == "XSIDLE"@ {
            timed_pulse(r, "Max idle"@, trip_start, F32_ONE)
        } else {
            seq![]
        },
        Series::Duration(n) => if et == name_text(n) {
            reading_point(r, "Duration"@, false)
        } else {
            seq![]
        },
        Series::Severity => if et == "IMPACT"@ {
            match find_tag(r.rec.ev_detail, "Severity"@) {
                Some(j) => seq![pt(t, severity_level(r.rec.ev_detail[j].1, reading(r, j)))],
                None => seq![],
            }
        } else {
            seq![]
        },
        Series::ZoneOutput(n) => if et == name_text(n) {
            reading_point(r, "Zone output"@, true)
        } else {
            seq![]
        },
        Series::Seat(driver) => if et == "UNBUCKLED"@ && seat_is(
            r,
            if driver {
                "D"@
            } else {
                "P"@
            },
        ) {
            timed_pulse(
                r,
                "Duration"@,
                trip_start,
                if driver {
                    F32_ONE
                } else {
                    F32_HALF
                },
            )
        } else {
            seq![]
        },
    }
}

/// The points of series `k` over a list of events, event by event.
pub open spec fn gather(k: Series, t: Seq<EventRow>, trip_start: u64) -> Seq<SinglePoint>
    decreases t.len(),
{
    if t.len() == 0 {
        seq![]
    } else {
        gather(k, t.drop_last(), trip_start) + row_points(k, t.last(), trip_start)
    }
}

// ---------------------------------------------------------------------
// Reading one event.
// ---------------------------------------------------------------------

/// Once a prefix holds a detail labelled `tag`, the first such detail of
/// the whole list is that one.
proof fn lemma_find_tag_prefix(d: Seq<(Seq<char>, Seq<char>)>, tag: Seq<char>, j: int)
    requires
        0 <= j <= d.len(),
        find_tag(d.take(j), tag) is Some,
    ensures
        find_tag(d, tag) == find_tag(d.take(j), tag),
    decreases d.len(),
{
    if j < d.len() {
        assert(d.drop_last().take(j) =~= d.take(j));
        lemma_find_tag_prefix(d.drop_last(), tag, j);
    } else {
        assert(d.take(j) =~= d);
    }
}

/// The first detail labelled `tag` is one of the list, and has that label.
proof fn lemma_find_tag_range(d: Seq<(Seq<char>, Seq<char>)>, tag: Seq<char>)
    ensures
        find_tag(d, tag) matches Some(k) ==> 0 <= k < d.len() && d[k].0 == tag,
    decreases d.len(),
{
    if d.len() > 0 {
        lemma_find_tag_range(d.drop_last(), tag);
    }
}

/// The position of the first detail labelled `tag`.
fn find_tag_exec(d: &Vec<(String, String)>, tag: &str) -> (r: Option<usize>)
    ensures
        match r {
            Some(k) => k < d@.len() && find_tag(pairs_view(d@), tag@) == Some(k as int),
            None => find_tag(pairs_view(d@), tag@) is None,
        },
{
    let ghost pv = pairs_view(d@);
    proof {
        lemma_find_tag_range(pv, tag@);
    }
    for i in 0..d.len()
        invariant
            pv == pairs_view(d@),
            find_tag(pv.take(i as int), tag@) is None,
    {
        assert(pv.take(i + 1).drop_last() =~= pv.take(i as int));
        if str_eq(d[i].0.as_str(), tag) {
            proof {
                lemma_find_tag_prefix(pv, tag@, i + 1);
            }
            return Some(i);
        }
    }
    assert(pv.take(pv.len() as int) =~= pv);
    None
}

/// The reading of detail `k` of an event.
fn reading_exec(rd: &ScrapingReadings, k: usize) -> (r: Option<DetailReading>)
    ensures
        r == (if k < rd.details@.len() {
            rd.details@[k as int]
        } else {
            None
        }),
{
    if k < rd.details.len() {
        rd.details[k]
    } else {
        None
    }
}

/// The row of an event and its readings.
pub open spec fn row_of(rec: ScrapedData, rd: ScrapingReadings) -> EventRow {
    EventRow { rec: rec@, details: rd.details@ }
}

/// The value of the first detail labelled `tag`, read as a `u64`.
fn tag_u64_exec(rec: &ScrapedData, rd: &ScrapingReadings, tag: &str) -> (r: Option<u64>)
    ensures
        r == tag_u64(row_of(*rec, *rd), tag@),
{
    match find_tag_exec(&rec.ev_detail, tag) {
        Some(k) => {
            let cs = chars_of(rec.ev_detail[k].1.as_str());
            match parse_unsigned(&cs, u64::MAX) {
                Ok(v) => Some(v),
                Err(_) => None,
            }
        },
        None => None,
    }
}

/// The reading of the first detail labelled `tag`.
fn tag_reading_exec(rec: &ScrapedData, rd: &ScrapingReadings, tag: &str) -> (r: Option<
    DetailReading,
>)
    ensures
        r == tag_reading(row_of(*rec, *rd), tag@),
{
    match find_tag_exec(&rec.ev_detail, tag) {
        Some(k) => reading_exec(rd, k),
        None => None,
    }
}

/// A timed pulse, see [`timed_pulse`].
fn timed_pulse_exec(
    rec: &ScrapedData,
    rd: &ScrapingReadings,
    tag: &str,
    trip_start: u64,
    level: u32,
) -> (r: Vec<SinglePoint>)
    ensures
        r@ == timed_pulse(row_of(*rec, *rd), tag@, trip_start, level),
{
    match tag_u64_exec(rec, rd, tag) {
        Some(d) => {
            let end = rec.unix_time;
            let start = event_start_exec(end, d, trip_start);
            let r = vec![
                SinglePoint { unix_time: start, point_value: F32_ZERO },
                SinglePoint { unix_time: start, point_value: level },
                SinglePoint { unix_time: end, point_value: level },
                SinglePoint { unix_time: end, point_value: F32_ZERO },
            ];
            assert(r@ =~= square(start, end, level));
            r
        },
        None => Vec::new(),
    }
}

/// A reading point, see [`reading_point`].
fn reading_point_exec(rec: &ScrapedData, rd: &ScrapingReadings, tag: &str, plus_one: bool) -> (r:
    Vec<SinglePoint>)
    ensures
        r@ == reading_point(row_of(*rec, *rd), tag@, plus_one),
{
    match tag_reading_exec(rec, rd, tag) {
        Some(x) => {
            let v = if plus_one {
                x.plus_one_bits
            } else {
                x.bits
            };
            let r = vec![SinglePoint { unix_time: rec.unix_time, point_value: v }];
            assert(r@ =~= reading_point(row_of(*rec, *rd), tag@, plus_one));
            r
        },
        None => Vec::new(),
    }
}

/// The points that one event contributes to a series, see [`row_points`].
fn row_points_exec(k: Series, rec: &ScrapedData, rd: &ScrapingReadings, trip_start: u64) -> (r: Vec<
    SinglePoint,
>)
    ensures
        r@ == row_points(k, row_of(*rec, *rd), trip_start),
{
    let ghost row = row_of(*rec, *rd);
    let et = rec.event_type.as_str();
    let t = rec.unix_time;
    match k {
        Series::Battery => reading_point_exec(rec, rd, "Battery voltage", false),
        Series::Speed => {
            let r = vec![SinglePoint { unix_time: t, point_value: u32_as_f32_bits(rec.gps_speed) }];
            assert(r@ =~= row_points(k, row, trip_start));
            r
        },
        Series::IdleStart => {
            if str_eq(et, "XSIDLESTART") {
                let r = vec![SinglePoint { unix_time: t, point_value: F32_ONE }];
                assert(r@ =~= row_points(k, row, trip_start));
                r
            } else {
                Vec::new()
            }
        },
        Series::IdlePulse => {
            if str_eq(et, "XSIDLE") {
                timed_pulse_exec(rec, rd, "Max idle", trip_start, F32_ONE)
            } else {
                Vec::new()
            }
        },
        Series::Duration(n) => {
            if str_eq(et, name_str(n)) {
                reading_point_exec(rec, rd, "Duration", false)
            } else {
                Vec::new()
            }
        },
        Series::Severity => {
            if str_eq(et, "IMPACT") {
                match find_tag_exec(&rec.ev_detail, "Severity") {
                    Some(j) => {
                        let v = rec.ev_detail[j].1.as_str();
                        let level = if str_eq(v, "-") {
                            F32_ONE
                        } else if str_eq(v, "W") {
                            F32_TWO
                        } else if str_eq(v, "C") {
                            F32_THREE
                        } else {
                            match reading_exec(rd, j) {
                                Some(x) => x.bits,
                                None => F32_ONE,
                            }
                        };
                        let r = vec![SinglePoint { unix_time: t, point_value: level }];
                        assert(r@ =~= row_points(k, row, trip_start));
                        r
                    },
                    None => Vec::new(),
                }
            } else {
                Vec::new()
            }
        },
        Series::ZoneOutput(n) => {
            if str_eq(et, name_str(n)) {
                reading_point_exec(rec, rd, "Zone output", true)
            } else {
                Vec::new()
            }
        },
        Series::Seat(driver) => {
            let owner = if driver {
                "D"
            } else {
                "P"
            };
            let is_owner = match find_tag_exec(&rec.ev_detail, "Seat owner") {
                Some(j) => str_eq(rec.ev_detail[j].1.as_str(), owner),
                None => false,
            };
            if str_eq(et, "UNBUCKLED") && is_owner {
                let level = if driver {
                    F32_ONE
                } else {
                    F32_HALF
                };
                timed_pulse_exec(rec, rd, "Duration", trip_start, level)
            } else {
                Vec::new()
            }
        },
    }
}

// ---------------------------------------------------------------------
// The events of one trip.
// ---------------------------------------------------------------------

/// `idx` lists, in order, the positions in `rows` of the events `t`.
pub open spec fn members(idx: Seq<usize>, rows: Seq<EventRow>, t: Seq<EventRow>) -> bool {
    &&& idx.len() == t.len()
    &&& forall|j: int|
        #![trigger idx[j]]
        0 <= j < idx.len() ==> idx[j] < rows.len() && rows[idx[j] as int] == t[j]
}

/// The positions of the events of trip `trip`.
fn trip_members(scr: &Vec<ScrapedData>, rd: &Vec<ScrapingReadings>, trip: &str) -> (r: Vec<usize>)
    requires
        rd@.len() == scr@.len(),
    ensures
        members(r@, rows_of(scr@, rd@), trip_rows(rows_of(scr@, rd@), trip@)),
{
    let ghost rows = rows_of(scr@, rd@);
    let mut r: Vec<usize> = Vec::new();
    for i in 0..scr.len()
        invariant
            rd@.len() == scr@.len(),
            rows == rows_of(scr@, rd@),
            members(r@, rows, trip_rows(rows.take(i as int), trip@)),
    {
        assert(rows.take(i + 1).drop_last() =~= rows.take(i as int));
        assert(rows.take(i + 1).last() == rows[i as int]);
        assert(rows[i as int].rec.trip_num == scr@[i as int].trip_num@);
        if str_eq(scr[i].trip_num.as_str(), trip) {
            let ghost before = r@;
            r.push(i);
            assert(r@ == before.push(i));
            assert(trip_rows(rows.take(i + 1), trip@) == trip_rows(rows.take(i as int), trip@).push(
                rows[i as int],
            ));
            assert(r@[before.len() as int] == i);
            assert(members(r@, rows, trip_rows(rows.take(i + 1), trip@)));
        }
    }
    assert(rows.take(scr@.len() as int) =~= rows);
    r
}

/// The first and the last time of a nonempty trip.
fn trip_bounds(scr: &Vec<ScrapedData>, rd: &Vec<ScrapingReadings>, idx: &Vec<usize>, Ghost(t): Ghost<
    Seq<EventRow>,
>) -> (r: (u64, u64))
    requires
        rd@.len() == scr@.len(),
        members(idx@, rows_of(scr@, rd@), t),
    ensures
        r == (least(row_times(t)), greatest(row_times(t))),
{
    let mut lo: u64 = u64::MAX;
    let mut hi: u64 = 0;
    for j in 0..idx.len()
        invariant
            rd@.len() == scr@.len(),
            members(idx@, rows_of(scr@, rd@), t),
            lo == least(row_times(t.take(j as int))),
            hi == greatest(row_times(t.take(j as int))),
    {
        let i = idx[j];
        assert(rows_of(scr@, rd@).len() == scr@.len());
        assert(idx@[j as int] == i);
        assert(i < scr@.len());
        assert(rows_of(scr@, rd@)[i as int] == t[j as int]);
        let time = scr[i].unix_time;
        assert(row_times(t.take(j + 1)).drop_last() =~= row_times(t.take(j as int)));
        assert(row_times(t.take(j + 1)).last() == time);
        if time < lo {
            lo = time;
        }
        if time > hi {
            hi = time;
        }
    }
    assert(t.take(idx@.len() as int) =~= t);
    (lo, hi)
}

/// The points of series `k` over the events at `idx`.
fn gather_exec(
    k: Series,
    scr: &Vec<ScrapedData>,
    rd: &Vec<ScrapingReadings>,
    idx: &Vec<usize>,
    trip_start: u64,
    Ghost(t): Ghost<Seq<EventRow>>,
) -> (r: Vec<SinglePoint>)
    requires
        rd@.len() == scr@.len(),
        members(idx@, rows_of(scr@, rd@), t),
    ensures
        r@ == gather(k, t, trip_start),
{
    let mut r: Vec<SinglePoint> = Vec::new();
    for j in 0..idx.len()
        invariant
            rd@.len() == scr@.len(),
            members(idx@, rows_of(scr@, rd@), t),
            r@ == gather(k, t.take(j as int), trip_start),
    {
        let i = idx[j];
        assert(rows_of(scr@, rd@).len() == scr@.len());
        assert(idx@[j as int] == i);
        assert(i < scr@.len());
        assert(rows_of(scr@, rd@)[i as int] == t[j as int]);
        assert(row_of(scr@[i as int], rd@[i as int]) == t[j as int]);
        let mut more = row_points_exec(k, &scr[i], &rd[i], trip_start);
        assert(t.take(j + 1).drop_last() =~= t.take(j as int));
        r.append(&mut more);
    }
    assert(t.take(idx@.len() as int) =~= t);
    r
}

// ---------------------------------------------------------------------
// The plots.
// ---------------------------------------------------------------------

/// A plot of normal height.
pub open spec fn plot(
    name: Seq<char>,
    data_type: Seq<char>,
    units: Seq<char>,
    levels: Seq<Seq<char>>,
    points: Seq<SinglePoint>,
    traces: Seq<Seq<SinglePoint>>,
) -> TimeSeriesView {
    TimeSeriesView {
        series_name: name,
        data_type,
        units,
        levels,
        points,
        traces,
        tall_chart: false,
    }
}

/// The plot `d` where `c` holds, else none.
pub open spec fn shown_if(c: bool, d: TimeSeriesView) -> Seq<TimeSeriesView> {
    if c {
        seq![d]
    } else {
        seq![]
    }
}

/// A trace of pulses, on the zero baseline from the trip's start to its end.
pub open spec fn baseline_trace(pulses: Seq<SinglePoint>, trip_start: u64, trip_end: u64) -> Seq<
    SinglePoint,
> {
    seq![pt(trip_start, F32_ZERO)] + pulses + seq![pt(trip_end, F32_ZERO)]
}

/// The plot of one kind of event, if any event of the trip gives it a
/// point. Impacts are plotted by severity, zone changes and transitions by
/// zone output, unbuckled seats as a driver trace and a crew trace; the
/// other kinds as pulses of their duration.
pub open spec fn typed_plot(n: EventName, t: Seq<EventRow>, ts: u64, te: u64) -> Seq<
    TimeSeriesView,
> {
    match n {
        EventName::Impact => {
            let ev = gather(Series::Severity, t, ts);
            shown_if(
                ev.len() > 0,
                plot(
                    "IMPACT"@,
                    "Impulse"@,
                    "Severity"@,
                    seq!["Low"@, "Warning"@, "Critical"@],
                    ev,
                    seq![],
                ),
            )
        },
        EventName::ZoneChange => {
            let ev = gather(Series::ZoneOutput(n), t, ts);
            shown_if(
                ev.len() > 0,
                plot(name_text(n), "Impulse"@, "Zone Output"@, zone_levels(), ev, seq![]),
            )
        },
        EventName::ZoneTransition => {
            let ev = gather(Series::ZoneOutput(n), t, ts);
            shown_if(
                ev.len() > 0,
                plot(name_text(n), "Impulse"@, "Zone Output"@, zone_levels(), ev, seq![]),
            )
        },
        EventName::Unbuckled => {
            let d = baseline_trace(gather(Series::Seat(true), t, ts), ts, te);
            let p = baseline_trace(gather(Series::Seat(false), t, ts), ts, te);
            shown_if(
                d.len() > 2 || p.len() > 2,
                plot(
                    "UNBUCKLED"@,
                    "DualDigital"@,
                    "Active"@,
                    seq!["Crew"@, "Driver"@],
                    seq![],
                    seq![p, d],
                ),
            )
        },
        _ => {
            let ev = gather(Series::Duration(n), t, ts);
            shown_if(
                ev.len() > 0,
                plot(
                    name_text(n),
                    "Digital"@,
                    "Active"@,
                    seq![],
                    pulse_trace(ev, ts, te, "Digital"@),
                    seq![],
                ),
            )
        },
    }
}

/// The level names of a zone-output plot.
pub open spec fn zone_levels() -> Seq<Seq<char>> {
    seq!["No Zone"@, "1"@, "2"@, "3"@, "4"@]
}

/// The kinds of event that get a plot, in the order of their names.
pub open spec fn plot_order() -> Seq<EventName> {
    seq![
        EventName::EngineTemp,
        EventName::Impact,
        EventName::LowCoolant,
        EventName::OffSeat,
        EventName::OilPressure,
        EventName::Overload,
        EventName::Overspeed,
        EventName::Unbuckled,
        EventName::ZoneChange,
        EventName::ZoneOverspeed,
        EventName::ZoneTransition,
    ]
}

/// The plots of the kinds `names`, in order.
pub open spec fn typed_plots(names: Seq<EventName>, t: Seq<EventRow>, ts: u64, te: u64) -> Seq<
    TimeSeriesView,
>
    decreases names.len(),
{
    if names.len() == 0 {
        seq![]
    } else {
        typed_plots(names.drop_last(), t, ts, te) + typed_plot(names.last(), t, ts, te)
    }
}

/// The plots of trip `trip`: none for a trip without events; else, in
/// order, the battery voltage (where any event has a reading), the speed,
/// excess idling (starts as markers, idling periods as pulses), and the
/// plot of each kind of event in [`plot_order`]. The pulses and baselines
/// run from the trip's first time to its last.
pub open spec fn trip_datasets(rows: Seq<EventRow>, trip: Seq<char>) -> Seq<TimeSeriesView> {
    let t = trip_rows(rows, trip);
    if t.len() == 0 {
        seq![]
    } else {
        let ts = least(row_times(t));
        let te = greatest(row_times(t));
        let bat = gather(Series::Battery, t, ts);
        let spd = gather(Series::Speed, t, ts);
        let starts = gather(Series::IdleStart, t, ts);
        let idle = baseline_trace(gather(Series::IdlePulse, t, ts), ts, te);
        shown_if(bat.len() > 0, plot("Battery"@, "Analog"@, "V"@, seq![], bat, seq![])) + shown_if(
            spd.len() > 0,
            plot("Speed"@, "Analog"@, "kph"@, seq![], spd, seq![]),
        ) + shown_if(
            starts.len() > 0 || idle.len() > 2,
            plot(
                "EXCESS_IDLE"@,
                "ImpulseDigitalCombo"@,
                "Active"@,
                seq!["Start"@, "Active"@],
                seq![],
                seq![idle, starts],
            ),
        ) + typed_plots(plot_order(), t, ts, te)
    }
}

/// The view of a list of level names.
pub open spec fn levels_view(v: Seq<String>) -> Seq<Seq<char>> {
    v.map_values(|s: String| s@)
}

/// The view of a list of traces.
pub open spec fn traces_view(v: Seq<Vec<SinglePoint>>) -> Seq<Seq<SinglePoint>> {
    v.map_values(|p: Vec<SinglePoint>| p@)
}

/// Builds a plot of normal height.
fn make_plot(
    name: String,
    data_type: &str,
    units: &str,
    levels: Vec<String>,
    points: Vec<SinglePoint>,
    traces: Vec<Vec<SinglePoint>>,
) -> (r: TimeSeriesData)
    ensures
        r@ == plot(name@, data_type@, units@, levels_view(levels@), points@, traces_view(traces@)),
{
    TimeSeriesData {
        series_name: name,
        data_type: owned(data_type),
        units: owned(units),
        levels,
        time_series_points: points,
        multi_traces: traces,
        tall_chart: false,
    }
}

/// Appends a plot.
fn push_plot(ds: &mut Vec<TimeSeriesData>, d: TimeSeriesData)
    ensures
        series_view(final(ds)@) == series_view(old(ds)@).push(d@),
{
    let ghost dv = d@;
    ds.push(d);
    assert(series_view(ds@) =~= series_view(old(ds)@).push(dv));
}

/// A trace of pulses on the zero baseline, see [`baseline_trace`].
fn baseline_trace_exec(pulses: Vec<SinglePoint>, trip_start: u64, trip_end: u64) -> (r: Vec<
    SinglePoint,
>)
    ensures
        r@ == baseline_trace(pulses@, trip_start, trip_end),
{
    let mut r = vec![SinglePoint { unix_time: trip_start, point_value: F32_ZERO }];
    let mut p = pulses;
    r.append(&mut p);
    r.push(SinglePoint { unix_time: trip_end, point_value: F32_ZERO });
    assert(r@ =~= baseline_trace(pulses@, trip_start, trip_end));
    r
}

/// Appends the plot of one kind of event, see [`typed_plot`].
fn push_typed_plot(
    ds: &mut Vec<TimeSeriesData>,
    n: EventName,
    scr: &Vec<ScrapedData>,
    rd: &Vec<ScrapingReadings>,
    idx: &Vec<usize>,
    ts: u64,
    te: u64,
    Ghost(t): Ghost<Seq<EventRow>>,
)
    requires
        rd@.len() == scr@.len(),
        members(idx@, rows_of(scr@, rd@), t),
    ensures
        series_view(final(ds)@) == series_view(old(ds)@) + typed_plot(n, t, ts, te),
{
    let ghost before = series_view(ds@);
    match n {
        EventName::Impact => {
            let ev = gather_exec(Series::Severity, scr, rd, idx, ts, Ghost(t));
            if ev.len() > 0 {
                let levels = vec![owned("Low"), owned("Warning"), owned("Critical")];
                assert(levels_view(levels@) =~= seq!["Low"@, "Warning"@, "Critical"@]);
                let d = make_plot(owned("IMPACT"), "Impulse", "Severity", levels, ev, Vec::new());
                assert(traces_view(Seq::<Vec<SinglePoint>>::empty()) =~= seq![]);
                push_plot(ds, d);
            }
        },
        EventName::ZoneChange | EventName::ZoneTransition => {
            let ev = gather_exec(Series::ZoneOutput(n), scr, rd, idx, ts, Ghost(t));
            if ev.len() > 0 {
                let levels = vec![owned("No Zone"), owned("1"), owned("2"), owned("3"), owned("4")];
                assert(levels_view(levels@) =~= zone_levels());
                let d = make_plot(
                    owned(name_str(n)),
                    "Impulse",
                    "Zone Output",
                    levels,
                    ev,
                    Vec::new(),
                );
                assert(traces_view(Seq::<Vec<SinglePoint>>::empty()) =~= seq![]);
                push_plot(ds, d);
            }
        },
        EventName::Unbuckled => {
            let dp = gather_exec(Series::Seat(true), scr, rd, idx, ts, Ghost(t));
            let pp = gather_exec(Series::Seat(false), scr, rd, idx, ts, Ghost(t));
            let driver = baseline_trace_exec(dp, ts, te);
            let crew = baseline_trace_exec(pp, ts, te);
            if driver.len() > 2 || crew.len() > 2 {
                let levels = vec![owned("Crew"), owned("Driver")];
                assert(levels_view(levels@) =~= seq!["Crew"@, "Driver"@]);
                let ghost dv = driver@;
                let ghost cv = crew@;
                let traces = vec![crew, driver];
                assert(traces_view(traces@) =~= seq![cv, dv]);
                let d = make_plot(
                    owned("UNBUCKLED"),
                    "DualDigital",
                    "Active",
                    levels,
                    Vec::new(),
                    traces,
                );
                assert(levels_view(Seq::<String>::empty()) =~= seq![]);
                push_plot(ds, d);
            }
        },
        _ => {
            let ev = gather_exec(Series::Duration(n), scr, rd, idx, ts, Ghost(t));
            if ev.len() > 0 {
                let pulses = convert_to_pulse_data(ev.as_slice(), ts, te, "Digital");
                let d = make_plot(
                    owned(name_str(n)),
                    "Digital",
                    "Active",
                    Vec::new(),
                    pulses,
                    Vec::new(),
                );
                assert(levels_view(Seq::<String>::empty()) =~= seq![]);
                assert(traces_view(Seq::<Vec<SinglePoint>>::empty()) =~= seq![]);
                push_plot(ds, d);
            }
        },
    }
    assert(series_view(ds@) =~= before + typed_plot(n, t, ts, te));
}

/// The plots of the selected trip, see [`trip_datasets`]. `readings[i]`
/// holds the `f32` readings of `scraper.scrapings[i]`.
pub fn create_time_series_datasets(
    scraper: &Scraper,
    readings: &Vec<ScrapingReadings>,
    selected_trip: &str,
) -> (r: Vec<TimeSeriesData>)
    requires
        readings@.len() == scraper.scrapings@.len(),
    ensures
        series_view(r@) == trip_datasets(rows_of(scraper.scrapings@, readings@), selected_trip@),
        forall|n: EventName|
            trip_rows(rows_of(scraper.scrapings@, readings@), selected_trip@).len() > 0
                ==> #[trigger] series_view(r@).filter(named(name_text(n))) == typed_plot(
                n,
                trip_rows(rows_of(scraper.scrapings@, readings@), selected_trip@),
                least(row_times(trip_rows(rows_of(scraper.scrapings@, readings@), selected_trip@))),
                greatest(
                    row_times(trip_rows(rows_of(scraper.scrapings@, readings@), selected_trip@)),
                ),
            ),
        forall|n: EventName|
            trip_rows(rows_of(scraper.scrapings@, readings@), selected_trip@).len() > 0
                && duration_kind(n) && duration_readings(
                rows_of(scraper.scrapings@, readings@),
                selected_trip@,
                n,
            ).len() > 0 ==> #[trigger] series_view(r@).filter(named(name_text(n))) == seq![
                duration_plot(rows_of(scraper.scrapings@, readings@), selected_trip@, n),
            ],
{
    let scr = &scraper.scrapings;
    let rd = readings;
    let ghost rows = rows_of(scr@, rd@);
    let ghost t = trip_rows(rows, selected_trip@);
    let mut ds: Vec<TimeSeriesData> = Vec::new();
    let idx = trip_members(scr, rd, selected_trip);
    if idx.len() == 0 {
        assert(series_view(ds@) =~= seq![]);
        proof {
            lemma_all_kind_plots(rows, selected_trip@);
        }
        return ds;
    }
    let (ts, te) = trip_bounds(scr, rd, &idx, Ghost(t));
    let bat = gather_exec(Series::Battery, scr, rd, &idx, ts, Ghost(t));
    if bat.len() > 0 {
        let d = make_plot(owned("Battery"), "Analog", "V", Vec::new(), bat, Vec::new());
        assert(levels_view(Seq::<String>::empty()) =~= seq![]);
        assert(traces_view(Seq::<Vec<SinglePoint>>::empty()) =~= seq![]);
        push_plot(&mut ds, d);
    }
    let spd = gather_exec(Series::Speed, scr, rd, &idx, ts, Ghost(t));
    if spd.len() > 0 {
        let d = make_plot(owned("Speed"), "Analog", "kph", Vec::new(), spd, Vec::new());
        assert(levels_view(Seq::<String>::empty()) =~= seq![]);
        assert(traces_view(Seq::<Vec<SinglePoint>>::empty()) =~= seq![]);
        push_plot(&mut ds, d);
    }
    let starts = gather_exec(Series::IdleStart, scr, rd, &idx, ts, Ghost(t));
    let pulses = gather_exec(Series::IdlePulse, scr, rd, &idx, ts, Ghost(t));
    let idle = baseline_trace_exec(pulses, ts, te);
    if starts.len() > 0 || idle.len() > 2 {
        let levels = vec![owned("Start"), owned("Active")];
        assert(levels_view(levels@) =~= seq!["Start"@, "Active"@]);
        let ghost iv = idle@;
        let ghost sv = starts@;
        let traces = vec![idle, starts];
        assert(traces_view(traces@) =~= seq![iv, sv]);
        let d = make_plot(
            owned("EXCESS_IDLE"),
            "ImpulseDigitalCombo",
            "Active",
            levels,
            Vec::new(),
            traces,
        );
        assert(levels_view(Seq::<String>::empty()) =~= seq![]);
        push_plot(&mut ds, d);
    }
    let ghost head = series_view(ds@);
    let names = vec![
        EventName::EngineTemp,
        EventName::Impact,
        EventName::LowCoolant,
        EventName::OffSeat,
        EventName::OilPressure,
        EventName::Overload,
        EventName::Overspeed,
        EventName::Unbuckled,
        EventName::ZoneChange,
        EventName::ZoneOverspeed,
        EventName::ZoneTransition,
    ];
    assert(names@ =~= plot_order());
    for k in 0..names.len()
        invariant
            rd@.len() == scr@.len(),
            members(idx@, rows_of(scr@, rd@), t),
            series_view(ds@) == head + typed_plots(names@.take(k as int), t, ts, te),
    {
        let ghost mid = series_view(ds@);
        push_typed_plot(&mut ds, names[k], scr, rd, &idx, ts, te, Ghost(t));
        assert(names@.take(k + 1).drop_last() =~= names@.take(k as int));
        assert(series_view(ds@) =~= head + typed_plots(names@.take(k + 1), t, ts, te));
    }
    assert(names@.take(names@.len() as int) =~= names@);
    proof {
        assert(series_view(ds@) == trip_datasets(rows_of(scr@, rd@), selected_trip@));
        lemma_all_kind_plots(rows_of(scr@, rd@), selected_trip@);
    }
    ds
}

// ---------------------------------------------------------------------
// Laws.
// ---------------------------------------------------------------------

/// The speed series has one point per event, at the event's time.
proof fn lemma_speed_series(t: Seq<EventRow>, ts: u64)
    ensures
        gather(Series::Speed, t, ts).len() == t.len(),
        forall|k: int|
            0 <= k < t.len() ==> (#[trigger] gather(Series::Speed, t, ts)[k]).unix_time
                == t[k].rec.unix_time,
    decreases t.len(),
{
    if t.len() > 0 {
        lemma_speed_series(t.drop_last(), ts);
        let g = gather(Series::Speed, t, ts);
        let p = gather(Series::Speed, t.drop_last(), ts);
        assert forall|k: int| 0 <= k < t.len() implies (#[trigger] g[k]).unix_time
            == t[k].rec.unix_time by {
            if k < t.len() - 1 {
                assert(g[k] == p[k]);
                assert(t[k] == t.drop_last()[k]);
            }
        }
    }
}

/// A trip has plots exactly when it has events; then its speed plot comes
/// right after the battery plot (first where there is none), with one
/// point per event of the trip, at the event's time.
pub proof fn lemma_trip_plots(rows: Seq<EventRow>, trip: Seq<char>)
    ensures
        (trip_datasets(rows, trip).len() > 0) == (trip_rows(rows, trip).len() > 0),
        trip_rows(rows, trip).len() > 0 ==> {
            let t = trip_rows(rows, trip);
            let ds = trip_datasets(rows, trip);
            let ts = least(row_times(t));
            let i: int = if gather(Series::Battery, t, ts).len() > 0 {
                1
            } else {
                0
            };
            &&& ds[i].series_name == "Speed"@
            &&& ds[i].points.len() == t.len()
            &&& forall|k: int|
                0 <= k < t.len() ==> (#[trigger] ds[i].points[k]).unix_time == t[k].rec.unix_time
        },
{
    let t = trip_rows(rows, trip);
    if t.len() > 0 {
        let ts = least(row_times(t));
        lemma_speed_series(t, ts);
    }
}

/// Whether a plot has the name `name`.
pub open spec fn named(name: Seq<char>) -> spec_fn(TimeSeriesView) -> bool {
    |d: TimeSeriesView| d.series_name == name
}

/// The length and first letter of a kind's event type.
spec fn name_key(n: EventName) -> (nat, char) {
    match n {
        EventName::EngineTemp => (10, 'E'),
        EventName::Impact => (6, 'I'),
        EventName::LowCoolant => (10, 'L'),
        EventName::OffSeat => (7, 'O'),
        EventName::OilPressure => (11, 'O'),
        EventName::Overload => (8, 'O'),
        EventName::Overspeed => (9, 'O'),
        EventName::Unbuckled => (9, 'U'),
        EventName::ZoneChange => (10, 'Z'),
        EventName::ZoneOverspeed => (13, 'Z'),
        EventName::ZoneTransition => (14, 'Z'),
    }
}

/// Each kind's event type has the length and first letter of its key.
proof fn lemma_name_key(n: EventName)
    ensures
        name_text(n).len() == name_key(n).0,
        name_text(n)[0] == name_key(n).1,
{
    match n {
        EventName::EngineTemp => reveal_strlit("ENGINETEMP"),
        EventName::Impact => reveal_strlit("IMPACT"),
        EventName::LowCoolant => reveal_strlit("LOWCOOLANT"),
        EventName::OffSeat => reveal_strlit("OFFSEAT"),
        EventName::OilPressure => reveal_strlit("OILPRESSURE"),
        EventName::Overload => reveal_strlit("OVERLOAD"),
        EventName::Overspeed => reveal_strlit("OVERSPEED"),
        EventName::Unbuckled => reveal_strlit("UNBUCKLED"),
        EventName::ZoneChange => reveal_strlit("ZONECHANGE"),
        EventName::ZoneOverspeed => reveal_strlit("ZONEOVERSPEED"),
        EventName::ZoneTransition => reveal_strlit("ZONETRANSITION"),
    }
}

/// Different kinds have different event types, none of them the name of
/// the battery, speed or idling plot.
proof fn lemma_names_differ(m: EventName, n: EventName)
    ensures
        name_text(m) == name_text(n) ==> m == n,
        name_text(n) != "Battery"@,
        name_text(n) != "Speed"@,
        name_text(n) != "EXCESS_IDLE"@,
{
    lemma_name_key(m);
    lemma_name_key(n);
    reveal_strlit("Battery");
    reveal_strlit("Speed");
    reveal_strlit("EXCESS_IDLE");
    if name_text(m) == name_text(n) {
        assert(name_key(m) == name_key(n));
    }
    assert(name_text(n).len() != "Battery"@.len() || name_text(n)[0] != "Battery"@[0]);
    assert(name_text(n).len() != "EXCESS_IDLE"@.len() || name_text(n)[0] != "EXCESS_IDLE"@[0]);
}

/// The plots named `name` among `shown_if(c, d)`.
proof fn lemma_filter_shown_if(c: bool, d: TimeSeriesView, name: Seq<char>)
    ensures
        shown_if(c, d).filter(named(name)) == (if c && d.series_name == name {
            seq![d]
        } else {
            seq![]
        }),
{
    reveal_with_fuel(Seq::filter, 2);
    assert(seq![d].drop_last() =~= Seq::<TimeSeriesView>::empty());
    if c && d.series_name == name {
        assert(shown_if(c, d).filter(named(name)) =~= seq![d]);
    } else {
        assert(shown_if(c, d).filter(named(name)) =~= seq![]);
    }
}

/// The plot of kind `m` is named after its event type.
proof fn lemma_typed_plot_named(m: EventName, n: EventName, t: Seq<EventRow>, ts: u64, te: u64)
    ensures
        typed_plot(m, t, ts, te).filter(named(name_text(n))) == (if m == n {
            typed_plot(m, t, ts, te)
        } else {
            seq![]
        }),
{
    lemma_names_differ(m, n);
    match m {
        EventName::Impact => {
            let ev = gather(Series::Severity, t, ts);
            lemma_filter_shown_if(
                ev.len() > 0,
                plot(
                    "IMPACT"@,
                    "Impulse"@,
                    "Severity"@,
                    seq!["Low"@, "Warning"@, "Critical"@],
                    ev,
                    seq![],
                ),
                name_text(n),
            );
        },
        EventName::ZoneChange | EventName::ZoneTransition => {
            let ev = gather(Series::ZoneOutput(m), t, ts);
            lemma_filter_shown_if(
                ev.len() > 0,
                plot(name_text(m), "Impulse"@, "Zone Output"@, zone_levels(), ev, seq![]),
                name_text(n),
            );
        },
        EventName::Unbuckled => {
            let d = baseline_trace(gather(Series::Seat(true), t, ts), ts, te);
            let p = baseline_trace(gather(Series::Seat(false), t, ts), ts, te);
            lemma_filter_shown_if(
                d.len() > 2 || p.len() > 2,
                plot(
                    "UNBUCKLED"@,
                    "DualDigital"@,
                    "Active"@,
                    seq!["Crew"@, "Driver"@],
                    seq![],
                    seq![p, d],
                ),
                name_text(n),
            );
        },
        _ => {
            let ev = gather(Series::Duration(m), t, ts);
            lemma_filter_shown_if(
                ev.len() > 0,
                plot(
                    name_text(m),
                    "Digital"@,
                    "Active"@,
                    seq![],
                    pulse_trace(ev, ts, te, "Digital"@),
                    seq![],
                ),
                name_text(n),
            );
        },
    }
}

/// Among the plots of kinds listed once each, those named after kind `n`
/// are the plot of `n` where it is listed, else none.
proof fn lemma_typed_plots_named(
    names: Seq<EventName>,
    n: EventName,
    t: Seq<EventRow>,
    ts: u64,
    te: u64,
)
    requires
        names.no_duplicates(),
    ensures
        typed_plots(names, t, ts, te).filter(named(name_text(n))) == (if names.contains(n) {
            typed_plot(n, t, ts, te)
        } else {
            seq![]
        }),
    decreases names.len(),
{
    reveal(Seq::filter);
    if names.len() > 0 {
        let init = names.drop_last();
        let m = names.last();
        assert(init.no_duplicates());
        lemma_typed_plots_named(init, n, t, ts, te);
        lemma_typed_plot_named(m, n, t, ts, te);
        Seq::filter_distributes_over_add(
            typed_plots(init, t, ts, te),
            typed_plot(m, t, ts, te),
            named(name_text(n)),
        );
        if m == n {
            assert(!init.contains(n)) by {
                if init.contains(n) {
                    let j = choose|j: int| 0 <= j < init.len() && init[j] == n;
                    assert(names[j] == names[names.len() - 1]);
                }
            }
            assert(names.contains(n)) by {
                assert(names[names.len() - 1] == n);
            }
        } else {
            assert(names.contains(n) == init.contains(n)) by {
                if names.contains(n) {
                    let j = choose|j: int| 0 <= j < names.len() && names[j] == n;
                    assert(init[j] == n);
                }
                if init.contains(n) {
                    let j = choose|j: int| 0 <= j < init.len() && init[j] == n;
                    assert(names[j] == n);
                }
            }
        }
    } else {
        assert(typed_plots(names, t, ts, te).filter(named(name_text(n))) =~= seq![]);
    }
}

/// Each kind is listed in [`plot_order`], once.
proof fn lemma_plot_order(n: EventName)
    ensures
        plot_order().no_duplicates(),
        plot_order().contains(n),
{
    let o = plot_order();
    assert(o[0] == EventName::EngineTemp);
    assert(o[1] == EventName::Impact);
    assert(o[2] == EventName::LowCoolant);
    assert(o[3] == EventName::OffSeat);
    assert(o[4] == EventName::OilPressure);
    assert(o[5] == EventName::Overload);
    assert(o[6] == EventName::Overspeed);
    assert(o[7] == EventName::Unbuckled);
    assert(o[8] == EventName::ZoneChange);
    assert(o[9] == EventName::ZoneOverspeed);
    assert(o[10] == EventName::ZoneTransition);
    let k: int = match n {
        EventName::EngineTemp => 0,
        EventName::Impact => 1,
        EventName::LowCoolant => 2,
        EventName::OffSeat => 3,
        EventName::OilPressure => 4,
        EventName::Overload => 5,
        EventName::Overspeed => 6,
        EventName::Unbuckled => 7,
        EventName::ZoneChange => 8,
        EventName::ZoneOverspeed => 9,
        EventName::ZoneTransition => 10,
    };
    assert(o[k] == n);
}

/// Of the plots of a trip with events, those named after a kind of event
/// are exactly that kind's plot: one where an event of the trip gives it a
/// point, none where no event does.
pub proof fn lemma_kind_plot(rows: Seq<EventRow>, trip: Seq<char>, n: EventName)
    requires
        trip_rows(rows, trip).len() > 0,
    ensures
        ({
            let t = trip_rows(rows, trip);
            trip_datasets(rows, trip).filter(named(name_text(n))) == typed_plot(
                n,
                t,
                least(row_times(t)),
                greatest(row_times(t)),
            )
        }),
{
    let t = trip_rows(rows, trip);
    let ts = least(row_times(t));
    let te = greatest(row_times(t));
    let bat = gather(Series::Battery, t, ts);
    let spd = gather(Series::Speed, t, ts);
    let starts = gather(Series::IdleStart, t, ts);
    let idle = baseline_trace(gather(Series::IdlePulse, t, ts), ts, te);
    let p = named(name_text(n));
    let a = shown_if(bat.len() > 0, plot("Battery"@, "Analog"@, "V"@, seq![], bat, seq![]));
    let b = shown_if(spd.len() > 0, plot("Speed"@, "Analog"@, "kph"@, seq![], spd, seq![]));
    let c = shown_if(
        starts.len() > 0 || idle.len() > 2,
        plot(
            "EXCESS_IDLE"@,
            "ImpulseDigitalCombo"@,
            "Active"@,
            seq!["Start"@, "Active"@],
            seq![],
            seq![idle, starts],
        ),
    );
    let rest = typed_plots(plot_order(), t, ts, te);
    lemma_names_differ(n, n);
    lemma_filter_shown_if(bat.len() > 0, plot("Battery"@, "Analog"@, "V"@, seq![], bat, seq![]), name_text(n));
    lemma_filter_shown_if(spd.len() > 0, plot("Speed"@, "Analog"@, "kph"@, seq![], spd, seq![]), name_text(n));
    lemma_filter_shown_if(
        starts.len() > 0 || idle.len() > 2,
        plot(
            "EXCESS_IDLE"@,
            "ImpulseDigitalCombo"@,
            "Active"@,
            seq!["Start"@, "Active"@],
            seq![],
            seq![idle, starts],
        ),
        name_text(n),
    );
    lemma_plot_order(n);
    lemma_typed_plots_named(plot_order(), n, t, ts, te);
    Seq::filter_distributes_over_add(a, b, p);
    Seq::filter_distributes_over_add(a + b, c, p);
    Seq::filter_distributes_over_add(a + b + c, rest, p);
    assert(trip_datasets(rows, trip) == a + b + c + rest);
    assert(a.filter(p) + b.filter(p) + c.filter(p) + rest.filter(p) =~= rest.filter(p));
}

/// Whether kind `n` is plotted as pulses of its events' durations: all but
/// impacts, zone changes and transitions, and unbuckled seats.
pub open spec fn duration_kind(n: EventName) -> bool {
    n != EventName::Impact && n != EventName::ZoneChange && n != EventName::ZoneTransition && n
        != EventName::Unbuckled
}

/// The duration readings of kind `n` in trip `trip`: for each event of the
/// kind, in order, its time and the `f32` reading of its first `Duration`
/// detail, where that reads.
pub open spec fn duration_readings(rows: Seq<EventRow>, trip: Seq<char>, n: EventName) -> Seq<
    SinglePoint,
> {
    let t = trip_rows(rows, trip);
    gather(Series::Duration(n), t, least(row_times(t)))
}

/// The plot of a duration kind `n` in trip `trip`: `Digital`, `Active`,
/// without levels, whose points are the pulse trace of its duration readings
/// from the trip's first time to its last.
pub open spec fn duration_plot(rows: Seq<EventRow>, trip: Seq<char>, n: EventName) -> TimeSeriesView {
    let t = trip_rows(rows, trip);
    plot(
        name_text(n),
        "Digital"@,
        "Active"@,
        seq![],
        pulse_trace(
            duration_readings(rows, trip, n),
            least(row_times(t)),
            greatest(row_times(t)),
            "Digital"@,
        ),
        seq![],
    )
}

/// Of the plots of a trip with events, exactly one is named after a
/// duration kind that has duration readings in the trip: its
/// [`duration_plot`].
pub proof fn lemma_duration_plot(rows: Seq<EventRow>, trip: Seq<char>, n: EventName)
    requires
        trip_rows(rows, trip).len() > 0,
        duration_kind(n),
        duration_readings(rows, trip, n).len() > 0,
    ensures
        trip_datasets(rows, trip).filter(named(name_text(n))) == seq![duration_plot(rows, trip, n)],
{
    let t = trip_rows(rows, trip);
    let ts = least(row_times(t));
    let te = greatest(row_times(t));
    let ev = gather(Series::Duration(n), t, ts);
    let d = plot(name_text(n), "Digital"@, "Active"@, seq![], pulse_trace(ev, ts, te, "Digital"@), seq![]);
    assert(duration_plot(rows, trip, n) == d);
    assert(typed_plot(n, t, ts, te) == shown_if(ev.len() > 0, d));
    lemma_kind_plot(rows, trip, n);
}

/// [`lemma_kind_plot`] and [`lemma_duration_plot`] for every kind at once.
pub proof fn lemma_all_kind_plots(rows: Seq<EventRow>, trip: Seq<char>)
    ensures
        forall|n: EventName|
            trip_rows(rows, trip).len() > 0 ==> #[trigger] trip_datasets(rows, trip).filter(
                named(name_text(n)),
            ) == typed_plot(
                n,
                trip_rows(rows, trip),
                least(row_times(trip_rows(rows, trip))),
                greatest(row_times(trip_rows(rows, trip))),
            ),
        forall|n: EventName|
            trip_rows(rows, trip).len() > 0 && duration_kind(n) && duration_readings(
                rows,
                trip,
                n,
            ).len() > 0 ==> #[trigger] trip_datasets(rows, trip).filter(named(name_text(n)))
                == seq![duration_plot(rows, trip, n)],
{
    assert forall|n: EventName|
        trip_rows(rows, trip).len() > 0 implies #[trigger] trip_datasets(rows, trip).filter(
            named(name_text(n)),
        ) == typed_plot(
            n,
            trip_rows(rows, trip),
            least(row_times(trip_rows(rows, trip))),
            greatest(row_times(trip_rows(rows, trip))),
        ) by {
        lemma_kind_plot(rows, trip, n);
    }
    assert forall|n: EventName|
        trip_rows(rows, trip).len() > 0 && duration_kind(n) && duration_readings(
            rows,
            trip,
            n,
        ).len() > 0 implies #[trigger] trip_datasets(rows, trip).filter(named(name_text(n)))
        == seq![duration_plot(rows, trip, n)] by {
        lemma_duration_plot(rows, trip, n);
    }
}

/// Every point that an event contributes to a series is in the series.
proof fn lemma_gather_contains(s: Series, t: Seq<EventRow>, ts: u64, j: int, i: int)
    requires
        0 <= j < t.len(),
        0 <= i < row_points(s, t[j], ts).len(),
    ensures
        gather(s, t, ts).contains(row_points(s, t[j], ts)[i]),
    decreases t.len(),
{
    let g = gather(s, t, ts);
    let p = gather(s, t.drop_last(), ts);
    if j == t.len() - 1 {
        assert(g[p.len() + i] == row_points(s, t[j], ts)[i]);
    } else {
        assert(t.drop_last()[j] == t[j]);
        lemma_gather_contains(s, t.drop_last(), ts, j, i);
        let w = choose|w: int| 0 <= w < p.len() && p[w] == row_points(s, t[j], ts)[i];
        assert(g[w] == p[w]);
    }
}

/// The zone plot of a trip: where an event of the trip is a zone change
/// (or a zone transition) whose `Zone output` reads, the trip has exactly
/// one plot of that kind, an `Impulse` plot in `Zone Output` with the levels
/// `No Zone`, `1` to `4`, holding the event's point at its time with that
/// reading plus one.
pub proof fn lemma_zone_plot(rows: Seq<EventRow>, trip: Seq<char>, n: EventName, k: int)
    requires
        n == EventName::ZoneChange || n == EventName::ZoneTransition,
        0 <= k < trip_rows(rows, trip).len(),
        trip_rows(rows, trip)[k].rec.event_type == name_text(n),
        tag_reading(trip_rows(rows, trip)[k], "Zone output"@) is Some,
    ensures
        ({
            let e = trip_rows(rows, trip)[k];
            let ds = trip_datasets(rows, trip).filter(named(name_text(n)));
            &&& ds.len() == 1
            &&& ds[0].data_type == "Impulse"@
            &&& ds[0].units == "Zone Output"@
            &&& ds[0].levels == seq!["No Zone"@, "1"@, "2"@, "3"@, "4"@]
            &&& ds[0].points.contains(
                pt(e.rec.unix_time, tag_reading(e, "Zone output"@)->0.plus_one_bits),
            )
        }),
{
    let t = trip_rows(rows, trip);
    let ts = least(row_times(t));
    let te = greatest(row_times(t));
    let e = t[k];
    let ev = gather(Series::ZoneOutput(n), t, ts);
    let x = tag_reading(e, "Zone output"@)->0;
    assert(row_points(Series::ZoneOutput(n), e, ts) == seq![pt(e.rec.unix_time, x.plus_one_bits)]);
    lemma_gather_contains(Series::ZoneOutput(n), t, ts, k, 0);
    let d = plot(name_text(n), "Impulse"@, "Zone Output"@, zone_levels(), ev, seq![]);
    assert(ev.len() > 0);
    assert(typed_plot(n, t, ts, te) == seq![d]);
    lemma_kind_plot(rows, trip, n);
}

/// The severity levels of impacts: `-` is at 1, `W` at 2 and `C` at 3,
/// whatever else the event says.
pub proof fn lemma_severity_levels(rd: Option<DetailReading>)
    ensures
        severity_level("-"@, rd) == F32_ONE,
        severity_level("W"@, rd) == F32_TWO,
        severity_level("C"@, rd) == F32_THREE,
        F32_ONE == 0x3f80_0000u32,
        F32_TWO == 0x4000_0000u32,
        F32_THREE == 0x4040_0000u32,
{
    reveal_strlit("-");
    reveal_strlit("W");
    reveal_strlit("C");
    assert("W"@[0] != "-"@[0]);
    assert("C"@[0] != "-"@[0] && "C"@[0] != "W"@[0]);
    assert("W"@ != "-"@);
    assert("C"@ != "-"@ && "C"@ != "W"@);
}

/// The impact plot of a trip: where an event of the trip is an impact with
/// a `Severity` detail, the trip has exactly one `IMPACT` plot, an `Impulse`
/// plot in `Severity` whose levels name 1, 2 and 3 `Low`, `Warning` and
/// `Critical`, holding the event's point at its time and severity level.
pub proof fn lemma_impact_plot(rows: Seq<EventRow>, trip: Seq<char>, k: int, j: int)
    requires
        0 <= k < trip_rows(rows, trip).len(),
        trip_rows(rows, trip)[k].rec.event_type == "IMPACT"@,
        find_tag(trip_rows(rows, trip)[k].rec.ev_detail, "Severity"@) == Some(j),
    ensures
        ({
            let e = trip_rows(rows, trip)[k];
            let ds = trip_datasets(rows, trip).filter(named("IMPACT"@));
            &&& ds.len() == 1
            &&& ds[0].data_type == "Impulse"@
            &&& ds[0].units == "Severity"@
            &&& ds[0].levels == seq!["Low"@, "Warning"@, "Critical"@]
            &&& ds[0].points.contains(
                pt(e.rec.unix_time, severity_level(e.rec.ev_detail[j].1, reading(e, j))),
            )
        }),
{
    let t = trip_rows(rows, trip);
    let ts = least(row_times(t));
    let te = greatest(row_times(t));
    let e = t[k];
    let n = EventName::Impact;
    let ev = gather(Series::Severity, t, ts);
    assert(row_points(Series::Severity, e, ts) == seq![
        pt(e.rec.unix_time, severity_level(e.rec.ev_detail[j].1, reading(e, j))),
    ]);
    lemma_gather_contains(Series::Severity, t, ts, k, 0);
    let d = plot(
        "IMPACT"@,
        "Impulse"@,
        "Severity"@,
        seq!["Low"@, "Warning"@, "Critical"@],
        ev,
        seq![],
    );
    assert(ev.len() > 0);
    assert(typed_plot(n, t, ts, te) == seq![d]);
    lemma_kind_plot(rows, trip, n);
}

} // verus!
