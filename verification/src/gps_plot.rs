//! The GPS track of a trip: which events give a point, how a point is
//! marked, the satellite tile source, and the trip-time summary.
//!
//! Coordinates stay in the text in which the unit recorded them (units of
//! 10⁻⁷ degree); their conversion to degrees is a floating-point step that
//! the caller performs.

use vstd::prelude::*;

use crate::helpers_ts::hms;
use crate::numeric::{decimal, push_decimal, push_two_digits, zero_padded};
use crate::scraper::{coordinate_digits, records_view, ScrapedData, ScrapedView, Scraper};
use crate::text::{chars_of, copy_string, owned, push_str, str_eq};

verus! {

// ---------------------------------------------------------------------
// Tiles.
// ---------------------------------------------------------------------

/// The satellite tile source (ESRI World Imagery).
#[derive(Clone, Copy, Debug)]
pub struct SatelliteTiles;

/// The address of the tile at `zoom`, column `x` and row `y`.
pub open spec fn satellite_tile_url(zoom: u8, x: u32, y: u32) -> Seq<char> {
    "https://server.arcgisonline.com/ArcGIS/rest/services/World_Imagery/MapServer/tile/"@
        + decimal(zoom as nat) + "/"@ + decimal(y as nat) + "/"@ + decimal(x as nat)
}

impl SatelliteTiles {
    /// The address of a tile, see [`satellite_tile_url`].
    pub fn tile_url(&self, zoom: u8, x: u32, y: u32) -> (r: String)
        ensures
            r@ == satellite_tile_url(zoom, x, y),
    {
        let mut r = owned(
            "https://server.arcgisonline.com/ArcGIS/rest/services/World_Imagery/MapServer/tile/",
        );
        push_decimal(&mut r, zoom as u64);
        push_str(&mut r, "/");
        push_decimal(&mut r, y as u64);
        push_str(&mut r, "/");
        push_decimal(&mut r, x as u64);
        r
    }

    /// The attribution text that the tiles must carry.
    pub fn attribution_text(&self) -> (r: String)
        ensures
            r@ == "Tiles © Esri — Source: Esri, i-cubed, USDA, USGS, AEX, GeoEye, Getmapping, Aerogrid, IGN, IGP, UPR-EGP, and the GIS User Community"@,
    {
        owned(
            "Tiles © Esri — Source: Esri, i-cubed, USDA, USGS, AEX, GeoEye, Getmapping, Aerogrid, IGN, IGP, UPR-EGP, and the GIS User Community",
        )
    }

    /// The address that the attribution links to.
    pub fn attribution_url(&self) -> (r: String)
        ensures
            r@ == "https://www.esri.com/"@,
    {
        owned("https://www.esri.com/")
    }
}

// ---------------------------------------------------------------------
// Points.
// ---------------------------------------------------------------------

/// Whether a recorded coordinate is zero: all its digits are `0`.
pub open spec fn coordinate_is_zero(s: Seq<char>) -> bool {
    forall|i: int| 0 <= i < coordinate_digits(s).len() ==> #[trigger] coordinate_digits(s)[i] == '0'
}

/// Whether an event of trip `trip` gives a point of the track: it has a
/// position, neither coordinate being zero.
pub open spec fn on_track(rec: ScrapedView, trip: Seq<char>) -> bool {
    rec.trip_num == trip && !coordinate_is_zero(rec.lat) && !coordinate_is_zero(rec.lon)
}

/// The positions of the events that give a point of the track of `trip`.
pub open spec fn track_indices(recs: Seq<ScrapedView>, trip: Seq<char>) -> Seq<usize>
    decreases recs.len(),
{
    if recs.len() == 0 {
        seq![]
    } else if on_track(recs.last(), trip) {
        track_indices(recs.drop_last(), trip).push((recs.len() - 1) as usize)
    } else {
        track_indices(recs.drop_last(), trip)
    }
}

/// Whether a recorded coordinate is zero.
fn coordinate_is_zero_exec(s: &str) -> (r: bool)
    ensures
        r == coordinate_is_zero(s@),
{
    let cs = chars_of(s);
    let start: usize = if cs.len() > 0 && cs[0] == '-' {
        1
    } else {
        0
    };
    let ghost body = coordinate_digits(s@);
    assert(body =~= cs@.subrange(start as int, cs@.len() as int));
    let mut i = start;
    while i < cs.len()
        invariant
            start <= i <= cs.len(),
            cs@ == s@,
            body == coordinate_digits(s@),
            body =~= cs@.subrange(start as int, cs@.len() as int),
            forall|j: int| 0 <= j < i - start ==> #[trigger] body[j] == '0',
        decreases cs.len() - i,
    {
        assert(body[i - start] == cs@[i as int]);
        if cs[i] != '0' {
            return false;
        }
        i = i + 1;
    }
    true
}

/// The positions of the events that give a point of the track of the
/// selected trip, see [`track_indices`].
pub fn track_points(scraper: &Scraper, selected_trip: &str) -> (r: Vec<usize>)
    ensures
        r@ == track_indices(records_view(scraper.scrapings@), selected_trip@),
{
    let scr = &scraper.scrapings;
    let ghost recs = records_view(scr@);
    let mut r: Vec<usize> = Vec::new();
    for i in 0..scr.len()
        invariant
            recs == records_view(scr@),
            r@ == track_indices(recs.take(i as int), selected_trip@),
    {
        assert(recs.take(i + 1).drop_last() =~= recs.take(i as int));
        assert(recs.take(i + 1).last() == scr@[i as int]@);
        let d = &scr[i];
        if str_eq(d.trip_num.as_str(), selected_trip) && !coordinate_is_zero_exec(
            d.gps_locn.lat.as_str(),
        ) && !coordinate_is_zero_exec(d.gps_locn.lon.as_str()) {
            r.push(i);
        }
    }
    assert(recs.take(scr@.len() as int) =~= recs);
    r
}

// ---------------------------------------------------------------------
// Markers.
// ---------------------------------------------------------------------

/// The speed band of a track point, in km/h.
#[derive(Clone, Copy, Debug, PartialEq, Eq, Structural)]
pub enum SpeedBand {
    /// At most 60.
    Slow,
    /// Over 60, at most 80.
    Moderate,
    /// Over 80, at most 100.
    Fast,
    /// Over 100.
    VeryFast,
}

/// The speed band of a speed.
pub open spec fn band_of(speed: u32) -> SpeedBand {
    if speed > 100 {
        SpeedBand::VeryFast
    } else if speed > 80 {
        SpeedBand::Fast
    } else if speed > 60 {
        SpeedBand::Moderate
    } else {
        SpeedBand::Slow
    }
}

/// The speed band of a speed, see [`band_of`].
pub fn speed_band(speed: u32) -> (r: SpeedBand)
    ensures
        r == band_of(speed),
{
    if speed > 100 {
        SpeedBand::VeryFast
    } else if speed > 80 {
        SpeedBand::Fast
    } else if speed > 60 {
        SpeedBand::Moderate
    } else {
        SpeedBand::Slow
    }
}

/// How a point of the track is drawn on the map.
#[derive(Clone, Copy, Debug, PartialEq, Eq, Structural)]
pub enum Marker {
    /// The first point: the start pin.
    Start,
    /// The last point: the finish pin.
    Finish,
    /// Any other point: a dot coloured by speed band.
    Dot(SpeedBand),
}

/// How point `i` of a track of `n` points, with speed `speed`, is drawn.
pub open spec fn marker_of(i: usize, n: usize, speed: u32) -> Marker {
    if i == 0 {
        Marker::Start
    } else if i == n - 1 {
        Marker::Finish
    } else {
        Marker::Dot(band_of(speed))
    }
}

/// How point `i` of a track of `n` points is drawn, see [`marker_of`].
pub fn point_marker(i: usize, n: usize, speed: u32) -> (r: Marker)
    ensures
        r == marker_of(i, n, speed),
{
    if i == 0 {
        Marker::Start
    } else if n >= 1 && i == n - 1 {
        Marker::Finish
    } else {
        Marker::Dot(speed_band(speed))
    }
}

// ---------------------------------------------------------------------
// Times.
// ---------------------------------------------------------------------

/// chrono's reading of a shown date and time (`dd/mm/yyyy hh:mm:ss`) as
/// seconds since 1970-01-01 00:00:00 UTC; `None` where chrono does not
/// accept the text.
pub uninterp spec fn chrono_dmy_seconds(text: Seq<char>) -> Option<i64>;

/// Calls `chrono::NaiveDateTime::parse_from_str` with the format
/// `%d/%m/%Y %H:%M:%S` and, on success, `and_utc().timestamp()`. The
/// contract only names the result: it depends on the text alone.
#[verifier::external_body]
pub fn parse_datetime(date_str: &str) -> (r: Option<i64>)
    ensures
        r == chrono_dmy_seconds(date_str@),
{
    match chrono::NaiveDateTime::parse_from_str(date_str, "%d/%m/%Y %H:%M:%S") {
        Ok(naive) => Some(naive.and_utc().timestamp()),
        Err(_) => None,
    }
}

/// One point of a GPS track.
pub struct PlotPoint {
    /// The event's time, read from its shown date and time.
    pub timestamp: i64,
    pub trip_num: String,
    /// Latitude and longitude as recorded, in units of 10⁻⁷ degree.
    pub lat: String,
    pub lon: String,
    pub speed: u32,
    pub rssi: u32,
}

/// The mathematical content of a [`PlotPoint`].
pub struct PlotPointView {
    pub timestamp: i64,
    pub trip_num: Seq<char>,
    pub lat: Seq<char>,
    pub lon: Seq<char>,
    pub speed: u32,
    pub rssi: u32,
}

impl View for PlotPoint {
    type V = PlotPointView;

    open spec fn view(&self) -> PlotPointView {
        PlotPointView {
            timestamp: self.timestamp,
            trip_num: self.trip_num@,
            lat: self.lat@,
            lon: self.lon@,
            speed: self.speed,
            rssi: self.rssi,
        }
    }
}

/// The point of an event, at time `t`.
pub open spec fn point_view(rec: ScrapedView, t: i64) -> PlotPointView {
    PlotPointView {
        timestamp: t,
        trip_num: rec.trip_num,
        lat: rec.lat,
        lon: rec.lon,
        speed: rec.gps_speed,
        rssi: rec.gps_rssi,
    }
}

/// The time of the event at position `i`, read from its shown date and
/// time; meaningful where that reads (see [`dates_read`]).
pub open spec fn event_time(recs: Seq<ScrapedView>, i: int) -> i64 {
    match chrono_dmy_seconds(recs[i].date_time) {
        Some(t) => t,
        None => 0,
    }
}

/// Whether the date and time of each event at `idx` reads.
pub open spec fn dates_read(recs: Seq<ScrapedView>, idx: Seq<usize>) -> bool {
    forall|j: int|
        0 <= j < idx.len() ==> (#[trigger] chrono_dmy_seconds(recs[idx[j] as int].date_time)) is Some
}

/// The track through the events at `idx`: the point of each at its time.
pub open spec fn track_view(recs: Seq<ScrapedView>, idx: Seq<usize>) -> Seq<PlotPointView> {
    Seq::new(idx.len(), |j: int| point_view(recs[idx[j] as int], event_time(recs, idx[j] as int)))
}

/// The view of a list of points.
pub open spec fn points_view(v: Seq<PlotPoint>) -> Seq<PlotPointView> {
    v.map_values(|p: PlotPoint| p@)
}

/// The point of event `rec` at time `t`, the time read from its shown date
/// and time (see [`parse_datetime`]).
pub fn plot_point(rec: &ScrapedData, t: i64) -> (r: PlotPoint)
    ensures
        r@ == point_view(rec@, t),
{
    PlotPoint {
        timestamp: t,
        trip_num: copy_string(&rec.trip_num),
        lat: copy_string(&rec.gps_locn.lat),
        lon: copy_string(&rec.gps_locn.lon),
        speed: rec.gps_speed,
        rssi: rec.gps_rssi,
    }
}

/// Whether the date and time of each event at `idx` reads.
fn track_dates_read(scr: &Vec<ScrapedData>, idx: &Vec<usize>) -> (r: bool)
    requires
        forall|j: int| 0 <= j < idx@.len() ==> #[trigger] idx@[j] < scr@.len(),
    ensures
        r == dates_read(records_view(scr@), idx@),
{
    let ghost recs = records_view(scr@);
    for k in 0..idx.len()
        invariant
            recs == records_view(scr@),
            forall|j: int| 0 <= j < idx@.len() ==> #[trigger] idx@[j] < scr@.len(),
            forall|j: int|
                0 <= j < k ==> (#[trigger] chrono_dmy_seconds(recs[idx@[j] as int].date_time)) is Some,
    {
        let i = idx[k];
        assert(idx@[k as int] < scr@.len());
        assert(recs[i as int] == scr@[i as int]@);
        if parse_datetime(scr[i].date_time.as_str()).is_none() {
            assert(!((chrono_dmy_seconds(recs[idx@[k as int] as int].date_time)) is Some));
            return false;
        }
    }
    true
}

/// The GPS track of the selected trip, see [`track_indices`]: the point of
/// each of its events at the time read from its shown date and time, which
/// must read for each of them.
pub fn plot_points(scraper: &Scraper, selected_trip: &str) -> (r: Vec<PlotPoint>)
    requires
        dates_read(
            records_view(scraper.scrapings@),
            track_indices(records_view(scraper.scrapings@), selected_trip@),
        ),
    ensures
        points_view(r@) == track_view(
            records_view(scraper.scrapings@),
            track_indices(records_view(scraper.scrapings@), selected_trip@),
        ),
{
    let scr = &scraper.scrapings;
    let ghost recs = records_view(scr@);
    let idx = track_points(scraper, selected_trip);
    proof {
        lemma_track_indices_in_range(recs, selected_trip@);
    }
    let mut r: Vec<PlotPoint> = Vec::new();
    for k in 0..idx.len()
        invariant
            recs == records_view(scr@),
            scr@ == scraper.scrapings@,
            idx@ == track_indices(recs, selected_trip@),
            forall|j: int| 0 <= j < idx@.len() ==> #[trigger] idx@[j] < recs.len(),
            dates_read(recs, idx@),
            points_view(r@) == track_view(recs, idx@).take(k as int),
    {
        let i = idx[k];
        assert(idx@[k as int] < recs.len());
        let d = &scr[i];
        assert(recs[i as int] == d@);
        assert(chrono_dmy_seconds(recs[idx@[k as int] as int].date_time) is Some);
        match parse_datetime(d.date_time.as_str()) {
            Some(t) => {
                let ghost before = points_view(r@);
                assert(event_time(recs, i as int) == t);
                let p = plot_point(d, t);
                r.push(p);
                assert(points_view(r@) =~= before.push(p@));
                assert(track_view(recs, idx@)[k as int] == p@);
                assert(points_view(r@) =~= track_view(recs, idx@).take(k + 1));
            },
            None => {
                assert(false);
            },
        }
    }
    assert(track_view(recs, idx@).take(idx@.len() as int) =~= track_view(recs, idx@));
    r
}

/// The GPS track of the selected trip, see [`plot_points`]; `None` exactly
/// where the date and time of one of its events does not read, a track that
/// has no plot.
pub fn try_plot_points(scraper: &Scraper, selected_trip: &str) -> (r: Option<Vec<PlotPoint>>)
    ensures
        (r is None) <==> !dates_read(
            records_view(scraper.scrapings@),
            track_indices(records_view(scraper.scrapings@), selected_trip@),
        ),
        r matches Some(v) ==> points_view(v@) == track_view(
            records_view(scraper.scrapings@),
            track_indices(records_view(scraper.scrapings@), selected_trip@),
        ),
{
    let idx = track_points(scraper, selected_trip);
    proof {
        lemma_track_indices_in_range(records_view(scraper.scrapings@), selected_trip@);
    }
    if track_dates_read(&scraper.scrapings, &idx) {
        Some(plot_points(scraper, selected_trip))
    } else {
        None
    }
}

/// The positions of a track are positions of events.
proof fn lemma_track_indices_in_range(recs: Seq<ScrapedView>, trip: Seq<char>)
    ensures
        forall|j: int|
            0 <= j < track_indices(recs, trip).len() ==> #[trigger] track_indices(recs, trip)[j]
                < recs.len(),
    decreases recs.len(),
{
    if recs.len() > 0 {
        lemma_track_indices_in_range(recs.drop_last(), trip);
        let prev = track_indices(recs.drop_last(), trip);
        let cur = track_indices(recs, trip);
        assert forall|j: int| 0 <= j < cur.len() implies #[trigger] cur[j] < recs.len() by {
            if j < prev.len() {
                assert(cur[j] == prev[j]);
            }
        }
    }
}

/// A value of the trip duration as `{:02}` writes an `i64`: zero-padded to
/// two digits, or with its minus sign where it is negative.
pub open spec fn signed_two_digits(negative: bool, p: nat) -> Seq<char> {
    if negative && p > 0 {
        "-"@ + decimal(p)
    } else {
        zero_padded(p, 2)
    }
}

/// A duration of `d` seconds as hours, minutes and seconds, each taking the
/// sign of `d`, as `{:02}:{:02}:{:02}`.
pub open spec fn duration_text(d: int) -> Seq<char> {
    let neg = d < 0;
    let a: nat = (if neg {
        -d
    } else {
        d
    }) as nat;
    signed_two_digits(neg, a / 3600) + ":"@ + signed_two_digits(neg, (a % 3600) / 60) + ":"@
        + signed_two_digits(neg, a % 60)
}

/// The UTC clock time `hh:mm:ss` of a time in seconds since 1970.
pub open spec fn clock_text(t: i64) -> Seq<char> {
    hms(((t as int) % 86400) as u64)
}

/// The trip-time summary: the first and the last clock time, and in
/// brackets the time between them.
pub open spec fn trip_time_text(first: i64, last: i64) -> Seq<char> {
    clock_text(first) + " to "@ + clock_text(last) + "  ("@ + duration_text(last - first) + ")"@
}

/// The second of the day of a time in seconds since 1970.
fn day_seconds(t: i64) -> (r: u64)
    ensures
        r == (t as int) % 86400,
{
    if t >= 0 {
        (t as u64) % 86400
    } else {
        let a: u64 = (-(t as i128)) as u64;
        let m = a % 86400;
        proof {
            let q = (a / 86400) as int;
            assert(a == q * 86400 + m) by (nonlinear_arith)
                requires
                    q == a / 86400,
                    m == a % 86400,
            ;
            if m == 0 {
                vstd::arithmetic::div_mod::lemma_fundamental_div_mod_converse(t as int, 86400, -q, 0);
            } else {
                vstd::arithmetic::div_mod::lemma_fundamental_div_mod_converse(
                    t as int,
                    86400,
                    -q - 1,
                    86400 - m,
                );
            }
        }
        if m == 0 {
            0
        } else {
            86400 - m
        }
    }
}

/// Appends a duration part, see [`signed_two_digits`].
fn push_signed_two_digits(s: &mut String, negative: bool, p: u64)
    ensures
        final(s)@ == old(s)@ + signed_two_digits(negative, p as nat),
{
    if negative && p > 0 {
        push_str(s, "-");
        push_decimal(s, p);
    } else {
        push_two_digits(s, p);
    }
}

/// The trip-time summary, see [`trip_time_text`].
pub fn trip_time(first: i64, last: i64) -> (r: String)
    ensures
        r@ == trip_time_text(first, last),
{
    let mut r = crate::helpers_ts::unix_time_to_hms(day_seconds(first));
    push_str(&mut r, " to ");
    let second = crate::helpers_ts::unix_time_to_hms(day_seconds(last));
    push_str(&mut r, second.as_str());
    push_str(&mut r, "  (");
    let d: i128 = last as i128 - first as i128;
    let neg = d < 0;
    let a: u128 = if neg {
        (-d) as u128
    } else {
        d as u128
    };
    let hours = (a / 3600) as u64;
    let minutes = ((a % 3600) / 60) as u64;
    let seconds = (a % 60) as u64;
    push_signed_two_digits(&mut r, neg, hours);
    push_str(&mut r, ":");
    push_signed_two_digits(&mut r, neg, minutes);
    push_str(&mut r, ":");
    push_signed_two_digits(&mut r, neg, seconds);
    push_str(&mut r, ")");
    r
}

} // verus!
