//! Decoding of the tail of an event record into labelled detail fields.
//!
//! Each kind of event carries its own fields after the common part of the
//! record; [`ungroup_event_data`] reads them by the kind's shape and labels
//! them. The battery reading, in tenths of a volt, comes last in most kinds;
//! its conversion to volts is a floating-point step that the caller performs
//! on the captured text and hands to [`EventDetails::into_pairs`].

use vstd::prelude::*;

use crate::pattern::{
    caps_within, lemma_search_spans_within, search, search_exec, shape_wf, Caps, Tok,
};
use crate::shapes::{shape_bare_volts, shape_bare_volts_exec, shape_checklist, shape_checklist_exec, shape_debug, shape_debug_exec, shape_four_numbers, shape_four_numbers_exec, shape_hardware, shape_hardware_exec, shape_impact, shape_impact_exec, shape_one_number, shape_one_number_exec, shape_report, shape_report_exec, shape_signon, shape_signon_exec, shape_spaced_volts, shape_spaced_volts_exec, shape_swstart, shape_swstart_exec, shape_three_numbers, shape_three_numbers_exec, shape_trip, shape_trip_exec, shape_two_numbers, shape_two_numbers_exec, shape_two_numbers_rest, shape_two_numbers_rest_exec, shape_unbuckled, shape_unbuckled_exec, shape_zone_ok, shape_zone_ok_exec, shape_zone_transition, shape_zone_transition_exec};
use crate::text::{chars_of, owned, piece, str_eq};

verus! {

/// How the tail of one kind of event is read.
pub struct EventLayout {
    /// The shape of the tail.
    pub shape: Seq<Tok>,
    /// The number of capture slots of the shape.
    pub groups: nat,
    /// Each detail label with the group that holds its value.
    pub labels: Seq<(Seq<char>, int)>,
    /// The group that holds the battery reading, if the kind has one.
    pub battery: Option<int>,
    /// A reading that is not a number is shown as `?` rather than left out.
    pub unknown_mark: bool,
    /// The event only happens outside trips.
    pub leaves_trip: bool,
}

/// What the decoder does with an event kind.
pub enum EventKind {
    /// The tail is read by a layout.
    Decoded(EventLayout),
    /// The kind has no detail fields (`CONFIG`).
    NoDetail,
    /// The kind is not one the decoder knows.
    Unsupported,
    /// `OOS UPM`: its shape is not a valid pattern, and decoding it fails.
    Broken,
}

/// The decoder's treatment of event kind `et`.
pub open spec fn event_kind(et: Seq<char>) -> EventKind {
    if et == "SIGNON"@ {
        EventKind::Decoded(EventLayout { shape: shape_signon(), groups: 8, labels: seq![("Operator id"@, 1int), ("Card id"@, 2int), ("Result"@, 3int), ("Bits read"@, 4int), ("Keyboard"@, 5int), ("Card reader"@, 6int)], battery: Some(7int), unknown_mark: false, leaves_trip: false })
    } else if et == "CHECKLIST"@ {
        EventKind::Decoded(EventLayout { shape: shape_checklist(), groups: 8, labels: seq![("Trip id"@, 1int), ("Result"@, 2int), ("Failed questions"@, 3int), ("Checklist duration"@, 4int), ("Checklist version"@, 5int), ("Checklist type"@, 6int)], battery: Some(7int), unknown_mark: false, leaves_trip: false })
    } else if et == "CLFAIL"@ {
        EventKind::Decoded(EventLayout { shape: shape_two_numbers(), groups: 4, labels: seq![("Trip id"@, 1int), ("Failded question"@, 2int)], battery: Some(3int), unknown_mark: false, leaves_trip: false })
    } else if et == "CRITICALOUTPUTSET"@ {
        EventKind::Decoded(EventLayout { shape: shape_two_numbers(), groups: 4, labels: seq![("Trip id"@, 1int), ("Speed"@, 2int)], battery: Some(3int), unknown_mark: false, leaves_trip: false })
    } else if et == "DEBUG"@ {
        EventKind::Decoded(EventLayout { shape: shape_debug(), groups: 2, labels: seq![("Debug error"@, 1int)], battery: None, unknown_mark: false, leaves_trip: false })
    } else if et == "ENGINEOVERSPEED"@ {
        EventKind::Decoded(EventLayout { shape: shape_three_numbers(), groups: 5, labels: seq![("Trip id"@, 1int), ("Duration"@, 2int), ("Max RPM"@, 3int)], battery: Some(4int), unknown_mark: false, leaves_trip: false })
    } else if et == "ENGINETEMP"@ {
        EventKind::Decoded(EventLayout { shape: shape_two_numbers_rest(), groups: 5, labels: seq![("Trip id"@, 1int), ("Duration"@, 2int)], battery: Some(4int), unknown_mark: false, leaves_trip: false })
    } else if et == "HARDWARE"@ {
        EventKind::Decoded(EventLayout { shape: shape_hardware(), groups: 3, labels: seq![("Equipment fault"@, 1int)], battery: Some(2int), unknown_mark: false, leaves_trip: true })
    } else if et == "IMPACT"@ {
        EventKind::Decoded(EventLayout { shape: shape_impact(), groups: 10, labels: seq![("Trip id"@, 1int), ("Forward g"@, 2int), ("Reverse g"@, 3int), ("Left g"@, 4int), ("Right g"@, 5int), ("Max G1"@, 6int), ("Max G2"@, 7int), ("Severity"@, 8int)], battery: Some(9int), unknown_mark: false, leaves_trip: false })
    } else if et == "INPUT"@ {
        EventKind::Decoded(EventLayout { shape: shape_three_numbers(), groups: 5, labels: seq![("Input"@, 1int), ("State"@, 2int), ("Duration"@, 3int)], battery: Some(4int), unknown_mark: false, leaves_trip: false })
    } else if et == "LOWCOOLANT"@ {
        EventKind::Decoded(EventLayout { shape: shape_two_numbers_rest(), groups: 5, labels: seq![("Trip id"@, 1int), ("Duration"@, 2int)], battery: Some(4int), unknown_mark: false, leaves_trip: false })
    } else if et == "OFFSEAT"@ {
        EventKind::Decoded(EventLayout { shape: shape_two_numbers_rest(), groups: 5, labels: seq![("Trip id"@, 1int), ("Duration"@, 2int)], battery: Some(4int), unknown_mark: false, leaves_trip: false })
    } else if et == "OILPRESSURE"@ {
        EventKind::Decoded(EventLayout { shape: shape_two_numbers_rest(), groups: 5, labels: seq![("Trip id"@, 1int), ("Duration"@, 2int)], battery: Some(4int), unknown_mark: false, leaves_trip: false })
    } else if et == "OOS PM"@ {
        EventKind::Decoded(EventLayout { shape: shape_spaced_volts(), groups: 2, labels: seq![], battery: Some(1int), unknown_mark: false, leaves_trip: false })
    } else if et == "OVERLOAD"@ {
        EventKind::Decoded(EventLayout { shape: shape_two_numbers_rest(), groups: 5, labels: seq![("Trip id"@, 1int), ("Duration"@, 2int)], battery: Some(4int), unknown_mark: false, leaves_trip: false })
    } else if et == "OVERSPEED"@ {
        EventKind::Decoded(EventLayout { shape: shape_two_numbers(), groups: 4, labels: seq![("Trip id"@, 1int), ("Duration"@, 2int)], battery: Some(3int), unknown_mark: false, leaves_trip: false })
    } else if et == "POWERDOWN"@ {
        EventKind::Decoded(EventLayout { shape: shape_bare_volts(), groups: 2, labels: seq![], battery: Some(1int), unknown_mark: false, leaves_trip: false })
    } else if et == "REPORT"@ {
        EventKind::Decoded(EventLayout { shape: shape_report(), groups: 5, labels: seq![("Trip id"@, 1int), ("Speed"@, 2int), ("Direction"@, 3int)], battery: Some(4int), unknown_mark: false, leaves_trip: false })
    } else if et == "SERVICE"@ {
        EventKind::Decoded(EventLayout { shape: shape_spaced_volts(), groups: 2, labels: seq![], battery: Some(1int), unknown_mark: false, leaves_trip: false })
    } else if et == "SWSTART"@ {
        EventKind::Decoded(EventLayout { shape: shape_swstart(), groups: 3, labels: seq![("Firmware"@, 1int)], battery: Some(2int), unknown_mark: false, leaves_trip: true })
    } else if et == "UNBUCKLED"@ {
        EventKind::Decoded(EventLayout { shape: shape_unbuckled(), groups: 5, labels: seq![("Trip id"@, 1int), ("Duration"@, 2int), ("Seat owner"@, 3int)], battery: Some(4int), unknown_mark: false, leaves_trip: false })
    } else if et == "XSIDLE"@ {
        EventKind::Decoded(EventLayout { shape: shape_two_numbers(), groups: 4, labels: seq![("Trip id"@, 1int), ("Max idle"@, 2int)], battery: Some(3int), unknown_mark: true, leaves_trip: false })
    } else if et == "XSIDLESTART"@ {
        EventKind::Decoded(EventLayout { shape: shape_one_number(), groups: 3, labels: seq![("Trip id"@, 1int)], battery: Some(2int), unknown_mark: true, leaves_trip: false })
    } else if et == "ZONE_OK"@ {
        EventKind::Decoded(EventLayout { shape: shape_zone_ok(), groups: 5, labels: seq![("Zones loaded"@, 1int), ("Max zones"@, 2int), ("GPS firmware version"@, 3int)], battery: Some(4int), unknown_mark: false, leaves_trip: true })
    } else if et == "ZONECHANGE"@ {
        EventKind::Decoded(EventLayout { shape: shape_four_numbers(), groups: 6, labels: seq![("Trip id"@, 1int), ("From zone"@, 2int), ("To zone"@, 3int), ("Zone output"@, 4int)], battery: Some(5int), unknown_mark: false, leaves_trip: false })
    } else if et == "ZONEOVERSPEED"@ {
        EventKind::Decoded(EventLayout { shape: shape_four_numbers(), groups: 6, labels: seq![("Trip id"@, 1int), ("Duration"@, 2int), ("Maximum speed"@, 3int), ("Zone output"@, 4int)], battery: Some(5int), unknown_mark: false, leaves_trip: false })
    } else if et == "ZONETRANSITION"@ {
        EventKind::Decoded(EventLayout { shape: shape_zone_transition(), groups: 7, labels: seq![("Trip id"@, 1int), ("From zone"@, 2int), ("To zone"@, 3int), ("Zone output"@, 4int), ("Transition"@, 5int)], battery: Some(6int), unknown_mark: false, leaves_trip: false })
    } else if et == "TRIP"@ {
        EventKind::Decoded(EventLayout { shape: shape_trip(), groups: 9, labels: seq![("Trip id"@, 1int), ("Time fwd"@, 2int), ("Time rev"@, 3int), ("Time idle"@, 4int), ("Max idle"@, 5int), ("Time on seat"@, 6int)], battery: Some(8int), unknown_mark: false, leaves_trip: false })
    } else if et == "CONFIG"@ {
        EventKind::NoDetail
    } else if et == "OOS UPM"@ {
        EventKind::Broken
    } else {
        EventKind::Unsupported
    }
}

/// Exec form of a layout: the shape, its slot count, the labels with their
/// groups, and the battery group.
pub struct ExecLayout {
    pub shape: Vec<Tok>,
    pub groups: usize,
    pub labels: Vec<(&'static str, usize)>,
    pub battery: Option<usize>,
    pub unknown_mark: bool,
    pub leaves_trip: bool,
}

/// The view of a label list.
pub open spec fn labels_view(v: Seq<(&'static str, usize)>) -> Seq<(Seq<char>, int)> {
    v.map_values(|p: (&'static str, usize)| (p.0@, p.1 as int))
}

/// The view of a battery group.
pub open spec fn battery_view(b: Option<usize>) -> Option<int> {
    match b {
        Some(g) => Some(g as int),
        None => None,
    }
}

impl ExecLayout {
    pub open spec fn matches_layout(&self, l: EventLayout) -> bool {
        &&& self.shape@ == l.shape
        &&& self.groups == l.groups
        &&& labels_view(self.labels@) == l.labels
        &&& battery_view(self.battery) == l.battery
        &&& self.unknown_mark == l.unknown_mark
        &&& self.leaves_trip == l.leaves_trip
        &&& shape_wf(self.shape@, self.groups as nat)
        &&& forall|i: int| 0 <= i < self.labels@.len() ==> (#[trigger] self.labels@[i]).1 < self.groups
        &&& (self.battery matches Some(g) ==> g < self.groups)
    }
}

/// Exec form of [`EventKind`].
pub enum ExecKind {
    Decoded(ExecLayout),
    NoDetail,
    Unsupported,
    Broken,
}

impl ExecKind {
    pub open spec fn matches_kind(&self, k: EventKind) -> bool {
        match (self, k) {
            (ExecKind::Decoded(e), EventKind::Decoded(l)) => e.matches_layout(l),
            (ExecKind::NoDetail, EventKind::NoDetail) => true,
            (ExecKind::Unsupported, EventKind::Unsupported) => true,
            (ExecKind::Broken, EventKind::Broken) => true,
            _ => false,
        }
    }
}

fn layout(
    shape: Vec<Tok>,
    groups: usize,
    labels: Vec<(&'static str, usize)>,
    battery: Option<usize>,
    unknown_mark: bool,
    leaves_trip: bool,
) -> (r: ExecKind)
    ensures
        r == ExecKind::Decoded(ExecLayout { shape, groups, labels, battery, unknown_mark, leaves_trip }),
{
    ExecKind::Decoded(ExecLayout { shape, groups, labels, battery, unknown_mark, leaves_trip })
}

/// The decoder's treatment of event kind `et`.
pub fn event_kind_exec(et: &str) -> (r: ExecKind)
    ensures
        r.matches_kind(event_kind(et@)),
{
    if str_eq(et, "SIGNON") {
        let labels: Vec<(&'static str, usize)> = vec![("Operator id", 1usize), ("Card id", 2usize), ("Result", 3usize), ("Bits read", 4usize), ("Keyboard", 5usize), ("Card reader", 6usize)];
        assert(labels_view(labels@) =~= seq![("Operator id"@, 1int), ("Card id"@, 2int), ("Result"@, 3int), ("Bits read"@, 4int), ("Keyboard"@, 5int), ("Card reader"@, 6int)]);
        layout(shape_signon_exec(), 8, labels, Some(7usize), false, false)
    } else if str_eq(et, "CHECKLIST") {
        let labels: Vec<(&'static str, usize)> = vec![("Trip id", 1usize), ("Result", 2usize), ("Failed questions", 3usize), ("Checklist duration", 4usize), ("Checklist version", 5usize), ("Checklist type", 6usize)];
        assert(labels_view(labels@) =~= seq![("Trip id"@, 1int), ("Result"@, 2int), ("Failed questions"@, 3int), ("Checklist duration"@, 4int), ("Checklist version"@, 5int), ("Checklist type"@, 6int)]);
        layout(shape_checklist_exec(), 8, labels, Some(7usize), false, false)
    } else if str_eq(et, "CLFAIL") {
        let labels: Vec<(&'static str, usize)> = vec![("Trip id", 1usize), ("Failded question", 2usize)];
        assert(labels_view(labels@) =~= seq![("Trip id"@, 1int), ("Failded question"@, 2int)]);
        layout(shape_two_numbers_exec(), 4, labels, Some(3usize), false, false)
    } else if str_eq(et, "CRITICALOUTPUTSET") {
        let labels: Vec<(&'static str, usize)> = vec![("Trip id", 1usize), ("Speed", 2usize)];
        assert(labels_view(labels@) =~= seq![("Trip id"@, 1int), ("Speed"@, 2int)]);
        layout(shape_two_numbers_exec(), 4, labels, Some(3usize), false, false)
    } else if str_eq(et, "DEBUG") {
        let labels: Vec<(&'static str, usize)> = vec![("Debug error", 1usize)];
        assert(labels_view(labels@) =~= seq![("Debug error"@, 1int)]);
        layout(shape_debug_exec(), 2, labels, None, false, false)
    } else if str_eq(et, "ENGINEOVERSPEED") {
        let labels: Vec<(&'static str, usize)> = vec![("Trip id", 1usize), ("Duration", 2usize), ("Max RPM", 3usize)];
        assert(labels_view(labels@) =~= seq![("Trip id"@, 1int), ("Duration"@, 2int), ("Max RPM"@, 3int)]);
        layout(shape_three_numbers_exec(), 5, labels, Some(4usize), false, false)
    } else if str_eq(et, "ENGINETEMP") {
        let labels: Vec<(&'static str, usize)> = vec![("Trip id", 1usize), ("Duration", 2usize)];
        assert(labels_view(labels@) =~= seq![("Trip id"@, 1int), ("Duration"@, 2int)]);
        layout(shape_two_numbers_rest_exec(), 5, labels, Some(4usize), false, false)
    } else if str_eq(et, "HARDWARE") {
        let labels: Vec<(&'static str, usize)> = vec![("Equipment fault", 1usize)];
        assert(labels_view(labels@) =~= seq![("Equipment fault"@, 1int)]);
        layout(shape_hardware_exec(), 3, labels, Some(2usize), false, true)
    } else if str_eq(et, "IMPACT") {
        let labels: Vec<(&'static str, usize)> = vec![("Trip id", 1usize), ("Forward g", 2usize), ("Reverse g", 3usize), ("Left g", 4usize), ("Right g", 5usize), ("Max G1", 6usize), ("Max G2", 7usize), ("Severity", 8usize)];
        assert(labels_view(labels@) =~= seq![("Trip id"@, 1int), ("Forward g"@, 2int), ("Reverse g"@, 3int), ("Left g"@, 4int), ("Right g"@, 5int), ("Max G1"@, 6int), ("Max G2"@, 7int), ("Severity"@, 8int)]);
        layout(shape_impact_exec(), 10, labels, Some(9usize), false, false)
    } else if str_eq(et, "INPUT") {
        let labels: Vec<(&'static str, usize)> = vec![("Input", 1usize), ("State", 2usize), ("Duration", 3usize)];
        assert(labels_view(labels@) =~= seq![("Input"@, 1int), ("State"@, 2int), ("Duration"@, 3int)]);
        layout(shape_three_numbers_exec(), 5, labels, Some(4usize), false, false)
    } else if str_eq(et, "LOWCOOLANT") {
        let labels: Vec<(&'static str, usize)> = vec![("Trip id", 1usize), ("Duration", 2usize)];
        assert(labels_view(labels@) =~= seq![("Trip id"@, 1int), ("Duration"@, 2int)]);
        layout(shape_two_numbers_rest_exec(), 5, labels, Some(4usize), false, false)
    } else if str_eq(et, "OFFSEAT") {
        let labels: Vec<(&'static str, usize)> = vec![("Trip id", 1usize), ("Duration", 2usize)];
        assert(labels_view(labels@) =~= seq![("Trip id"@, 1int), ("Duration"@, 2int)]);
        layout(shape_two_numbers_rest_exec(), 5, labels, Some(4usize), false, false)
    } else if str_eq(et, "OILPRESSURE") {
        let labels: Vec<(&'static str, usize)> = vec![("Trip id", 1usize), ("Duration", 2usize)];
        assert(labels_view(labels@) =~= seq![("Trip id"@, 1int), ("Duration"@, 2int)]);
        layout(shape_two_numbers_rest_exec(), 5, labels, Some(4usize), false, false)
    } else if str_eq(et, "OOS PM") {
        let labels: Vec<(&'static str, usize)> = vec![];
        assert(labels_view(labels@) =~= seq![]);
        layout(shape_spaced_volts_exec(), 2, labels, Some(1usize), false, false)
    } else if str_eq(et, "OVERLOAD") {
        let labels: Vec<(&'static str, usize)> = vec![("Trip id", 1usize), ("Duration", 2usize)];
        assert(labels_view(labels@) =~= seq![("Trip id"@, 1int), ("Duration"@, 2int)]);
        layout(shape_two_numbers_rest_exec(), 5, labels, Some(4usize), false, false)
    } else if str_eq(et, "OVERSPEED") {
        let labels: Vec<(&'static str, usize)> = vec![("Trip id", 1usize), ("Duration", 2usize)];
        assert(labels_view(labels@) =~= seq![("Trip id"@, 1int), ("Duration"@, 2int)]);
        layout(shape_two_numbers_exec(), 4, labels, Some(3usize), false, false)
    } else if str_eq(et, "POWERDOWN") {
        let labels: Vec<(&'static str, usize)> = vec![];
        assert(labels_view(labels@) =~= seq![]);
        layout(shape_bare_volts_exec(), 2, labels, Some(1usize), false, false)
    } else if str_eq(et, "REPORT") {
        let labels: Vec<(&'static str, usize)> = vec![("Trip id", 1usize), ("Speed", 2usize), ("Direction", 3usize)];
        assert(labels_view(labels@) =~= seq![("Trip id"@, 1int), ("Speed"@, 2int), ("Direction"@, 3int)]);
        layout(shape_report_exec(), 5, labels, Some(4usize), false, false)
    } else if str_eq(et, "SERVICE") {
        let labels: Vec<(&'static str, usize)> = vec![];
        assert(labels_view(labels@) =~= seq![]);
        layout(shape_spaced_volts_exec(), 2, labels, Some(1usize), false, false)
    } else if str_eq(et, "SWSTART") {
        let labels: Vec<(&'static str, usize)> = vec![("Firmware", 1usize)];
        assert(labels_view(labels@) =~= seq![("Firmware"@, 1int)]);
        layout(shape_swstart_exec(), 3, labels, Some(2usize), false, true)
    } else if str_eq(et, "UNBUCKLED") {
        let labels: Vec<(&'static str, usize)> = vec![("Trip id", 1usize), ("Duration", 2usize), ("Seat owner", 3usize)];
        assert(labels_view(labels@) =~= seq![("Trip id"@, 1int), ("Duration"@, 2int), ("Seat owner"@, 3int)]);
        layout(shape_unbuckled_exec(), 5, labels, Some(4usize), false, false)
    } else if str_eq(et, "XSIDLE") {
        let labels: Vec<(&'static str, usize)> = vec![("Trip id", 1usize), ("Max idle", 2usize)];
        assert(labels_view(labels@) =~= seq![("Trip id"@, 1int), ("Max idle"@, 2int)]);
        layout(shape_two_numbers_exec(), 4, labels, Some(3usize), true, false)
    } else if str_eq(et, "XSIDLESTART") {
        let labels: Vec<(&'static str, usize)> = vec![("Trip id", 1usize)];
        assert(labels_view(labels@) =~= seq![("Trip id"@, 1int)]);
        layout(shape_one_number_exec(), 3, labels, Some(2usize), true, false)
    } else if str_eq(et, "ZONE_OK") {
        let labels: Vec<(&'static str, usize)> = vec![("Zones loaded", 1usize), ("Max zones", 2usize), ("GPS firmware version", 3usize)];
        assert(labels_view(labels@) =~= seq![("Zones loaded"@, 1int), ("Max zones"@, 2int), ("GPS firmware version"@, 3int)]);
        layout(shape_zone_ok_exec(), 5, labels, Some(4usize), false, true)
    } else if str_eq(et, "ZONECHANGE") {
        let labels: Vec<(&'static str, usize)> = vec![("Trip id", 1usize), ("From zone", 2usize), ("To zone", 3usize), ("Zone output", 4usize)];
        assert(labels_view(labels@) =~= seq![("Trip id"@, 1int), ("From zone"@, 2int), ("To zone"@, 3int), ("Zone output"@, 4int)]);
        layout(shape_four_numbers_exec(), 6, labels, Some(5usize), false, false)
    } else if str_eq(et, "ZONEOVERSPEED") {
        let labels: Vec<(&'static str, usize)> = vec![("Trip id", 1usize), ("Duration", 2usize), ("Maximum speed", 3usize), ("Zone output", 4usize)];
        assert(labels_view(labels@) =~= seq![("Trip id"@, 1int), ("Duration"@, 2int), ("Maximum speed"@, 3int), ("Zone output"@, 4int)]);
        layout(shape_four_numbers_exec(), 6, labels, Some(5usize), false, false)
    } else if str_eq(et, "ZONETRANSITION") {
        let labels: Vec<(&'static str, usize)> = vec![("Trip id", 1usize), ("From zone", 2usize), ("To zone", 3usize), ("Zone output", 4usize), ("Transition", 5usize)];
        assert(labels_view(labels@) =~= seq![("Trip id"@, 1int), ("From zone"@, 2int), ("To zone"@, 3int), ("Zone output"@, 4int), ("Transition"@, 5int)]);
        layout(shape_zone_transition_exec(), 7, labels, Some(6usize), false, false)
    } else if str_eq(et, "TRIP") {
        let labels: Vec<(&'static str, usize)> = vec![("Trip id", 1usize), ("Time fwd", 2usize), ("Time rev", 3usize), ("Time idle", 4usize), ("Max idle", 5usize), ("Time on seat", 6usize)];
        assert(labels_view(labels@) =~= seq![("Trip id"@, 1int), ("Time fwd"@, 2int), ("Time rev"@, 3int), ("Time idle"@, 4int), ("Max idle"@, 5int), ("Time on seat"@, 6int)]);
        layout(shape_trip_exec(), 9, labels, Some(8usize), false, false)
    } else if str_eq(et, "CONFIG") {
        ExecKind::NoDetail
    } else if str_eq(et, "OOS UPM") {
        ExecKind::Broken
    } else {
        ExecKind::Unsupported
    }
}


/// `OOS UPM` is the one kind whose shape does not compile.
pub proof fn lemma_oos_upm_is_broken()
    ensures
        event_kind("OOS UPM"@) is Broken,
{
    reveal_strlit("SIGNON");
    reveal_strlit("CHECKLIST");
    reveal_strlit("CLFAIL");
    reveal_strlit("CRITICALOUTPUTSET");
    reveal_strlit("DEBUG");
    reveal_strlit("ENGINEOVERSPEED");
    reveal_strlit("ENGINETEMP");
    reveal_strlit("HARDWARE");
    reveal_strlit("IMPACT");
    reveal_strlit("INPUT");
    reveal_strlit("LOWCOOLANT");
    reveal_strlit("OFFSEAT");
    reveal_strlit("OILPRESSURE");
    reveal_strlit("OOS PM");
    reveal_strlit("OVERLOAD");
    reveal_strlit("OVERSPEED");
    reveal_strlit("POWERDOWN");
    reveal_strlit("REPORT");
    reveal_strlit("SERVICE");
    reveal_strlit("SWSTART");
    reveal_strlit("UNBUCKLED");
    reveal_strlit("XSIDLE");
    reveal_strlit("XSIDLESTART");
    reveal_strlit("ZONE_OK");
    reveal_strlit("ZONECHANGE");
    reveal_strlit("ZONEOVERSPEED");
    reveal_strlit("ZONETRANSITION");
    reveal_strlit("TRIP");
    reveal_strlit("CONFIG");
    reveal_strlit("OOS UPM");
    assert("OOS UPM"@.len() == 7);
    assert("SIGNON"@.len() == 6);
    assert("OOS UPM"@ != "SIGNON"@);
    assert("OOS UPM"@ != "CHECKLIST"@);
    assert("OOS UPM"@ != "CLFAIL"@);
    assert("OOS UPM"@ != "CRITICALOUTPUTSET"@);
    assert("OOS UPM"@ != "DEBUG"@);
    assert("OOS UPM"@ != "ENGINEOVERSPEED"@);
    assert("OOS UPM"@ != "ENGINETEMP"@);
    assert("OOS UPM"@ != "HARDWARE"@);
    assert("OOS UPM"@ != "IMPACT"@);
    assert("OOS UPM"@ != "INPUT"@);
    assert("OOS UPM"@ != "LOWCOOLANT"@);
    assert("OOS UPM"@[1] != "OFFSEAT"@[1]);
    assert("OOS UPM"@ != "OFFSEAT"@);
    assert("OOS UPM"@ != "OILPRESSURE"@);
    assert("OOS UPM"@ != "OOS PM"@);
    assert("OOS UPM"@ != "OVERLOAD"@);
    assert("OOS UPM"@ != "OVERSPEED"@);
    assert("OOS UPM"@ != "POWERDOWN"@);
    assert("OOS UPM"@ != "REPORT"@);
    assert("OOS UPM"@[0] != "SERVICE"@[0]);
    assert("OOS UPM"@ != "SERVICE"@);
    assert("OOS UPM"@ != "SWSTART"@);
    assert("OOS UPM"@ != "UNBUCKLED"@);
    assert("OOS UPM"@ != "XSIDLE"@);
    assert("OOS UPM"@ != "XSIDLESTART"@);
    assert("OOS UPM"@ != "ZONE_OK"@);
    assert("OOS UPM"@ != "ZONECHANGE"@);
    assert("OOS UPM"@ != "ZONEOVERSPEED"@);
    assert("OOS UPM"@ != "ZONETRANSITION"@);
    assert("OOS UPM"@ != "TRIP"@);
    assert("OOS UPM"@ != "CONFIG"@);
}

/// The text of group `g` in `t`, if the group took part in the match.
pub open spec fn group_text(t: Seq<char>, c: Caps, g: int) -> Option<Seq<char>> {
    if 0 <= g < c.1.len() {
        match c.1[g] {
            Some((a, b)) => Some(t.subrange(a as int, b as int)),
            None => None,
        }
    } else {
        None
    }
}

/// The labelled values of a match, in label order; a label whose group took
/// no part is left out.
pub open spec fn labelled_fields(t: Seq<char>, c: Caps, labels: Seq<(Seq<char>, int)>) -> Seq<
    (Seq<char>, Seq<char>),
>
    decreases labels.len(),
{
    if labels.len() == 0 {
        seq![]
    } else {
        let prev = labelled_fields(t, c, labels.drop_last());
        match group_text(t, c, labels.last().1) {
            Some(v) => prev.push((labels.last().0, v)),
            None => prev,
        }
    }
}

/// The decoded tail of an event.
pub struct DecodedTail {
    /// The labelled detail fields, battery reading excluded.
    pub pairs: Seq<(Seq<char>, Seq<char>)>,
    /// The captured battery reading, in tenths of a volt.
    pub battery: Option<Seq<char>>,
    /// A battery reading that is not a number is shown as `?`.
    pub unknown_mark: bool,
    /// The event marks its record as outside a trip.
    pub leaves_trip: bool,
    /// The kind is not one the decoder knows.
    pub unsupported: bool,
}

/// A decoded tail with no fields.
pub open spec fn empty_tail(unsupported: bool) -> DecodedTail {
    DecodedTail {
        pairs: seq![],
        battery: None,
        unknown_mark: false,
        leaves_trip: false,
        unsupported,
    }
}

/// How the tail `sub` of an event of kind `et` decodes. A tail that does not
/// have its kind's shape yields no fields.
pub open spec fn decode_tail(et: Seq<char>, sub: Seq<char>) -> DecodedTail {
    match event_kind(et) {
        EventKind::Decoded(l) => match search(l.shape, sub, l.groups) {
            Some(c) => DecodedTail {
                pairs: labelled_fields(sub, c, l.labels),
                battery: match l.battery {
                    Some(g) => group_text(sub, c, g),
                    None => None,
                },
                unknown_mark: l.unknown_mark,
                leaves_trip: l.leaves_trip,
                unsupported: false,
            },
            None => empty_tail(false),
        },
        EventKind::Unsupported => empty_tail(true),
        _ => empty_tail(false),
    }
}

/// The view of a list of detail pairs.
pub open spec fn pairs_view(v: Seq<(String, String)>) -> Seq<(Seq<char>, Seq<char>)> {
    v.map_values(|p: (String, String)| (p.0@, p.1@))
}

/// The view of an optional string.
pub open spec fn opt_text(o: Option<String>) -> Option<Seq<char>> {
    match o {
        Some(s) => Some(s@),
        None => None,
    }
}

/// The detail fields of one event, before the battery reading is converted.
pub struct EventDetails {
    /// The labelled detail fields, battery reading excluded.
    pub pairs: Vec<(String, String)>,
    /// The captured battery reading, in tenths of a volt.
    pub battery: Option<String>,
    /// A battery reading that is not a number is shown as `?`.
    pub unknown_mark: bool,
}

/// The detail pairs that a battery reading adds: the voltage text when the
/// reading converted, `?` when it did not and the kind shows unreadable
/// readings, nothing otherwise.
pub open spec fn battery_pairs(
    battery: Option<Seq<char>>,
    unknown_mark: bool,
    volts: Option<Seq<char>>,
) -> Seq<(Seq<char>, Seq<char>)> {
    match battery {
        Some(_) => match volts {
            Some(v) => seq![("Battery voltage"@, v)],
            None => if unknown_mark {
                seq![("Battery voltage"@, "?"@)]
            } else {
                seq![]
            },
        },
        None => seq![],
    }
}

impl EventDetails {
    /// The full list of detail pairs, given `volts`: the battery reading
    /// converted to volts with one decimal, or `None` if the reading is not
    /// a number.
    pub fn into_pairs(self, volts: Option<String>) -> (r: Vec<(String, String)>)
        ensures
            pairs_view(r@) == pairs_view(self.pairs@) + battery_pairs(
                opt_text(self.battery),
                self.unknown_mark,
                opt_text(volts),
            ),
    {
        let mut r = self.pairs;
        let ghost before = r@;
        if self.battery.is_some() {
            match volts {
                Some(v) => {
                    r.push((owned("Battery voltage"), v));
                },
                None => {
                    if self.unknown_mark {
                        r.push((owned("Battery voltage"), owned("?")));
                    }
                },
            }
        }
        assert(pairs_view(r@) =~= pairs_view(before) + battery_pairs(
            opt_text(self.battery),
            self.unknown_mark,
            opt_text(volts),
        ));
        r
    }
}

/// Reads the tail `sub_data` of an event of kind `event_type` into labelled
/// detail fields. A kind that only happens outside trips clears `on_trip`;
/// a kind the decoder does not know clears `ev_supported`.
pub fn ungroup_event_data(
    event_type: String,
    sub_data: &str,
    on_trip: &mut bool,
    ev_supported: &mut bool,
) -> (r: EventDetails)
    requires
        event_type@ != "OOS UPM"@,
    ensures
        pairs_view(r.pairs@) == decode_tail(event_type@, sub_data@).pairs,
        opt_text(r.battery) == decode_tail(event_type@, sub_data@).battery,
        r.unknown_mark == decode_tail(event_type@, sub_data@).unknown_mark,
        *final(on_trip) == (*old(on_trip) && !decode_tail(event_type@, sub_data@).leaves_trip),
        *final(ev_supported) == (*old(ev_supported) && !decode_tail(
            event_type@,
            sub_data@,
        ).unsupported),
{
    let kind = event_kind_exec(event_type.as_str());
    let mut r = EventDetails { pairs: Vec::new(), battery: None, unknown_mark: false };
    match kind {
        ExecKind::Decoded(l) => {
            let t = chars_of(sub_data);
            let found = search_exec(&l.shape, &t, l.groups);
            proof {
                lemma_search_spans_within(l.shape@, t@, l.groups as nat);
            }
            match found {
                Some(c) => {
                    let ghost cv = c.view();
                    let ghost labels = labels_view(l.labels@);
                    assert(caps_within(cv, l.groups as nat, t@.len() as int));
                    let mut pairs: Vec<(String, String)> = Vec::new();
                    for i in 0..l.labels.len()
                        invariant
                            cv == c.view(),
                            t@ == sub_data@,
                            caps_within(cv, l.groups as nat, t@.len() as int),
                            labels == labels_view(l.labels@),
                            forall|j: int|
                                0 <= j < l.labels@.len() ==> (#[trigger] l.labels@[j]).1 < l.groups,
                            pairs_view(pairs@) == labelled_fields(t@, cv, labels.take(i as int)),
                    {
                        let (label, g) = l.labels[i];
                        assert(labels.take(i + 1).drop_last() =~= labels.take(i as int));
                        assert(labels.take(i + 1).last() == (label@, g as int));
                        match c.spans[g] {
                            Some((a, b)) => {
                                assert(a <= b && b <= t@.len());
                                pairs.push((owned(label), piece(&t, a, b)));
                                assert(pairs_view(pairs@) =~= labelled_fields(
                                    t@,
                                    cv,
                                    labels.take(i + 1),
                                ));
                            },
                            None => {
                            },
                        }
                    }
                    assert(labels.take(l.labels@.len() as int) =~= labels);
                    r.pairs = pairs;
                    match l.battery {
                        Some(g) => {
                            match c.spans[g] {
                                Some((a, b)) => {
                                    r.battery = Some(piece(&t, a, b));
                                },
                                None => {
                                },
                            }
                        },
                        None => {
                        },
                    }
                    r.unknown_mark = l.unknown_mark;
                    if l.leaves_trip {
                        *on_trip = false;
                    }
                },
                None => {
                },
            }
        },
        ExecKind::NoDetail => {
        },
        ExecKind::Unsupported => {
            *ev_supported = false;
        },
        ExecKind::Broken => {
        },
    }
    r
}

} // verus!
