//! The data behind the time-series plots.
//!
//! A plotted value is a single-precision float; the library holds it as its
//! IEEE-754 binary32 bit pattern and never computes with floats itself.

use vstd::prelude::*;

use crate::text::{owned, push_str, str_eq};

verus! {

/// The bit pattern of `0.0_f32`.
pub const F32_ZERO: u32 = 0x0000_0000;

/// The bit pattern of `0.5_f32`.
pub const F32_HALF: u32 = 0x3f00_0000;

/// The bit pattern of `1.0_f32`.
pub const F32_ONE: u32 = 0x3f80_0000;

/// The bit pattern of `2.0_f32`.
pub const F32_TWO: u32 = 0x4000_0000;

/// The bit pattern of `3.0_f32`.
pub const F32_THREE: u32 = 0x4040_0000;

/// One plotted point: a time and the bit pattern of its `f32` value.
#[derive(Clone, Copy, Debug)]
pub struct SinglePoint {
    pub unix_time: u64,
    pub point_value: u32,
}

/// One plot: its title, kind, unit, level names and points. Plots of a
/// single trace hold it in `time_series_points`; plots of several traces
/// hold them in `multi_traces`.
pub struct TimeSeriesData {
    pub series_name: String,
    pub data_type: String,
    pub units: String,
    pub levels: Vec<String>,
    pub time_series_points: Vec<SinglePoint>,
    pub multi_traces: Vec<Vec<SinglePoint>>,
    pub tall_chart: bool,
}

/// The mathematical content of a [`TimeSeriesData`].
pub struct TimeSeriesView {
    pub series_name: Seq<char>,
    pub data_type: Seq<char>,
    pub units: Seq<char>,
    pub levels: Seq<Seq<char>>,
    pub points: Seq<SinglePoint>,
    pub traces: Seq<Seq<SinglePoint>>,
    pub tall_chart: bool,
}

impl View for TimeSeriesData {
    type V = TimeSeriesView;

    open spec fn view(&self) -> TimeSeriesView {
        TimeSeriesView {
            series_name: self.series_name@,
            data_type: self.data_type@,
            units: self.units@,
            levels: self.levels@.map_values(|s: String| s@),
            points: self.time_series_points@,
            traces: self.multi_traces@.map_values(|v: Vec<SinglePoint>| v@),
            tall_chart: self.tall_chart,
        }
    }
}

/// The view of a list of plots.
pub open spec fn series_view(v: Seq<TimeSeriesData>) -> Seq<TimeSeriesView> {
    v.map_values(|d: TimeSeriesData| d@)
}

/// The title of a plot: its name and, in brackets, its unit.
pub fn plot_title(dataset: &TimeSeriesData) -> (r: String)
    ensures
        r@ == dataset.series_name@ + " ("@ + dataset.units@ + ")"@,
{
    let mut r = owned(dataset.series_name.as_str());
    push_str(&mut r, " (");
    push_str(&mut r, dataset.units.as_str());
    push_str(&mut r, ")");
    r
}

/// The times of the four ticks of the time axis over `lo ..= hi`: the ends
/// and the thirds in between; none where the range is empty.
pub open spec fn tick_times(lo: u64, hi: u64) -> Seq<u64> {
    if hi > lo {
        seq![lo, (lo + (hi - lo) / 3) as u64, (lo + 2 * (hi - lo) / 3) as u64, hi]
    } else {
        seq![]
    }
}

/// The times of the ticks of the time axis, see [`tick_times`].
pub fn axis_ticks(lo: u64, hi: u64) -> (r: Vec<u64>)
    ensures
        r@ == tick_times(lo, hi),
{
    if hi > lo {
        let span = hi - lo;
        let third = span / 3;
        let two_thirds = (2 * (span as u128) / 3) as u64;
        let r = vec![lo, lo + third, lo + two_thirds, hi];
        assert(r@ =~= tick_times(lo, hi));
        r
    } else {
        Vec::new()
    }
}

/// The middle of a time range, rounded down.
pub fn middle_time(lo: u64, hi: u64) -> (r: u64)
    ensures
        r == (lo + hi) / 2,
{
    ((lo as u128 + hi as u128) / 2) as u64
}

/// The interaction modes of the time-series plots: pan and zoom, the time
/// cursor and its time, and the trip on show. Pan and zoom and the cursor
/// exclude each other.
pub struct PlotModes {
    pub pan_zoom_enabled: bool,
    pub cursor_enabled: bool,
    pub cursor_time: Option<u64>,
    pub current_trip: Option<String>,
}

impl PlotModes {
    /// Pan and zoom and the cursor are not both on.
    pub open spec fn exclusive(&self) -> bool {
        !(self.pan_zoom_enabled && self.cursor_enabled)
    }

    /// Both off, no cursor time, no trip.
    pub fn new() -> (r: PlotModes)
        ensures
            r.exclusive(),
            !r.pan_zoom_enabled,
            !r.cursor_enabled,
            r.cursor_time is None,
            r.current_trip is None,
    {
        PlotModes { pan_zoom_enabled: false, cursor_enabled: false, cursor_time: None, current_trip: None }
    }

    /// The cursor button: switching the cursor on switches pan and zoom off.
    pub fn toggle_cursor(&mut self)
        ensures
            final(self).cursor_enabled == !old(self).cursor_enabled,
            final(self).pan_zoom_enabled == (old(self).pan_zoom_enabled && old(self).cursor_enabled),
            final(self).exclusive(),
            final(self).cursor_time == old(self).cursor_time,
            final(self).current_trip == old(self).current_trip,
    {
        if !self.cursor_enabled {
            self.pan_zoom_enabled = false;
        }
        self.cursor_enabled = !self.cursor_enabled;
    }

    /// The pan-and-zoom button: switching pan and zoom on switches the
    /// cursor off; the result tells whether the view is to be reset to the
    /// full time range (it is, when pan and zoom goes on).
    pub fn toggle_pan_zoom(&mut self) -> (reset_view: bool)
        ensures
            final(self).pan_zoom_enabled == !old(self).pan_zoom_enabled,
            final(self).cursor_enabled == (old(self).cursor_enabled && old(self).pan_zoom_enabled),
            reset_view == !old(self).pan_zoom_enabled,
            final(self).exclusive(),
            final(self).cursor_time == old(self).cursor_time,
            final(self).current_trip == old(self).current_trip,
    {
        let reset = !self.pan_zoom_enabled;
        if reset {
            self.cursor_enabled = false;
        }
        self.pan_zoom_enabled = !self.pan_zoom_enabled;
        reset
    }

    /// Shows trip `trip`: a trip other than the one on show switches both
    /// modes off, clears the cursor time and is to reset the view (the
    /// result).
    pub fn show_trip(&mut self, trip: &str) -> (reset_view: bool)
        ensures
            reset_view == !(old(self).current_trip matches Some(t) && t@ == trip@),
            reset_view ==> {
                &&& !final(self).pan_zoom_enabled
                &&& !final(self).cursor_enabled
                &&& final(self).cursor_time is None
                &&& final(self).current_trip matches Some(t) && t@ == trip@
            },
            !reset_view ==> *final(self) == *old(self),
            old(self).exclusive() ==> final(self).exclusive(),
    {
        let same = match &self.current_trip {
            Some(t) => str_eq(t.as_str(), trip),
            None => false,
        };
        if same {
            return false;
        }
        self.pan_zoom_enabled = false;
        self.cursor_enabled = false;
        self.cursor_time = None;
        self.current_trip = Some(owned(trip));
        true
    }

    /// With the cursor on and not yet placed, places it at the middle of
    /// the time range.
    pub fn place_cursor(&mut self, time_min: u64, time_max: u64)
        ensures
            final(self).cursor_time == (if old(self).cursor_enabled && old(self).cursor_time is None {
                Some(((time_min + time_max) / 2) as u64)
            } else {
                old(self).cursor_time
            }),
            final(self).pan_zoom_enabled == old(self).pan_zoom_enabled,
            final(self).cursor_enabled == old(self).cursor_enabled,
            final(self).current_trip == old(self).current_trip,
            old(self).exclusive() ==> final(self).exclusive(),
    {
        if self.cursor_enabled && self.cursor_time.is_none() {
            self.cursor_time = Some(middle_time(time_min, time_max));
        }
    }
}

} // verus!
