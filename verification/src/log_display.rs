//! What the event log shows: which events pass the display filter, how they
//! group into trip sections and top-level events, and the text of each
//! header and detail row.

use vstd::prelude::*;

use crate::numeric::{decimal, push_decimal};
use crate::scraper::{records_view, ScrapedData, ScrapedView};
use crate::text::{owned, push_str, str_eq, string_push};

verus! {

// ---------------------------------------------------------------------
// Display state.
// ---------------------------------------------------------------------

/// Whether there is anything to show.
#[derive(Clone, Copy, Debug)]
pub struct UiState {
    pub display_ready: bool,
}

impl Default for UiState {
    /// Nothing to show yet.
    fn default() -> (r: Self)
        ensures
            r.display_ready == false,
    {
        UiState { display_ready: false }
    }
}

impl UiState {
    /// The log is ready to show exactly when there are events.
    pub fn update_with_scraped_data(&mut self, scraped_data: &[ScrapedData])
        ensures
            final(self).display_ready == (scraped_data@.len() > 0),
    {
        if scraped_data.len() == 0 {
            self.display_ready = false;
            return;
        }
        self.display_ready = true;
    }
}

// ---------------------------------------------------------------------
// The filter.
// ---------------------------------------------------------------------

/// Whether an event passes the display filter: `SIGNON` always; `TRIP` on a
/// trip; `REPORT`, `DEBUG` and `INPUT` on a trip and where their setting is
/// on; any other event on a trip, or outside one where out-of-trip events
/// are shown.
pub open spec fn shows(rec: ScrapedView, oot: bool, input: bool, report: bool, debug: bool) -> bool {
    let et = rec.event_type;
    if et == "SIGNON"@ {
        true
    } else if et == "TRIP"@ {
        rec.on_trip
    } else if et == "REPORT"@ {
        report && rec.on_trip
    } else if et == "DEBUG"@ {
        debug && rec.on_trip
    } else if et == "INPUT"@ {
        input && rec.on_trip
    } else {
        rec.on_trip || oot
    }
}

/// Whether an event passes the display filter, see [`shows`].
pub fn should_show_event(
    item: &ScrapedData,
    show_oot_events: bool,
    show_input_events: bool,
    show_report_events: bool,
    show_debug_events: bool,
) -> (r: bool)
    ensures
        r == shows(
            item@,
            show_oot_events,
            show_input_events,
            show_report_events,
            show_debug_events,
        ),
{
    let et = item.event_type.as_str();
    if str_eq(et, "SIGNON") {
        true
    } else if str_eq(et, "TRIP") {
        item.on_trip
    } else if str_eq(et, "REPORT") {
        show_report_events && item.on_trip
    } else if str_eq(et, "DEBUG") {
        show_debug_events && item.on_trip
    } else if str_eq(et, "INPUT") {
        show_input_events && item.on_trip
    } else {
        if item.on_trip {
            true
        } else {
            show_oot_events
        }
    }
}

/// The positions of the events that pass the filter, in order.
pub open spec fn shown_indices(
    recs: Seq<ScrapedView>,
    oot: bool,
    input: bool,
    report: bool,
    debug: bool,
) -> Seq<usize>
    decreases recs.len(),
{
    if recs.len() == 0 {
        seq![]
    } else if shows(recs.last(), oot, input, report, debug) {
        shown_indices(recs.drop_last(), oot, input, report, debug).push((recs.len() - 1) as usize)
    } else {
        shown_indices(recs.drop_last(), oot, input, report, debug)
    }
}

// ---------------------------------------------------------------------
// Grouping.
// ---------------------------------------------------------------------

/// One entry of the event log.
pub enum DisplayItem {
    /// An event shown on its own, outside a trip section.
    TopLevel(usize),
    /// A trip section: the positions of its events, the opening `SIGNON`
    /// first.
    Trip(Vec<usize>),
}

/// The mathematical content of a [`DisplayItem`].
pub enum ShownItem {
    TopLevel(usize),
    Trip(Seq<usize>),
}

impl View for DisplayItem {
    type V = ShownItem;

    open spec fn view(&self) -> ShownItem {
        match self {
            DisplayItem::TopLevel(i) => ShownItem::TopLevel(*i),
            DisplayItem::Trip(v) => ShownItem::Trip(v@),
        }
    }
}

/// The view of a list of entries.
pub open spec fn items_view(v: Seq<DisplayItem>) -> Seq<ShownItem> {
    v.map_values(|d: DisplayItem| d@)
}

/// The grouping state: the entries completed so far, and the events of the
/// trip that is open, if any.
pub struct GroupState {
    pub done: Seq<ShownItem>,
    pub open: Option<Seq<usize>>,
}

/// One shown event, at position `i` with event type `et`, taken into the
/// grouping: a `SIGNON` opens a new trip (an open one is dropped); a `TRIP`
/// closes the open trip, or stands on its own where none is open; any other
/// event joins the open trip, or stands on its own.
pub open spec fn group_step(s: GroupState, i: usize, et: Seq<char>) -> GroupState {
    if et == "SIGNON"@ {
        GroupState { done: s.done, open: Some(seq![i]) }
    } else if et == "TRIP"@ {
        match s.open {
            Some(evs) => GroupState { done: s.done.push(ShownItem::Trip(evs.push(i))), open: None },
            None => GroupState { done: s.done.push(ShownItem::TopLevel(i)), open: None },
        }
    } else {
        match s.open {
            Some(evs) => GroupState { done: s.done, open: Some(evs.push(i)) },
            None => GroupState { done: s.done.push(ShownItem::TopLevel(i)), open: None },
        }
    }
}

/// The grouping state after the shown events `shown` of `recs`.
pub open spec fn group_run(recs: Seq<ScrapedView>, shown: Seq<usize>) -> GroupState
    decreases shown.len(),
{
    if shown.len() == 0 {
        GroupState { done: seq![], open: None }
    } else {
        group_step(
            group_run(recs, shown.drop_last()),
            shown.last(),
            recs[shown.last() as int].event_type,
        )
    }
}

/// The entries of a grouping that has seen every event: the completed
/// ones, then the trip that is still open, if any.
pub open spec fn finished(s: GroupState) -> Seq<ShownItem> {
    match s.open {
        Some(evs) => s.done.push(ShownItem::Trip(evs)),
        None => s.done,
    }
}

/// The entries of the event log under the given filter settings.
pub open spec fn display_plan(
    recs: Seq<ScrapedView>,
    oot: bool,
    input: bool,
    report: bool,
    debug: bool,
) -> Seq<ShownItem> {
    finished(group_run(recs, shown_indices(recs, oot, input, report, debug)))
}

/// The entries of the event log, see [`display_plan`]: the events that pass
/// the filter, grouped into trip sections and top-level events.
pub fn display_entries(
    scraped_data: &[ScrapedData],
    show_oot_events: bool,
    show_input_events: bool,
    show_report_events: bool,
    show_debug_events: bool,
) -> (r: Vec<DisplayItem>)
    ensures
        items_view(r@) == display_plan(
            records_view(scraped_data@),
            show_oot_events,
            show_input_events,
            show_report_events,
            show_debug_events,
        ),
{
    let ghost recs = records_view(scraped_data@);
    let ghost mut shown: Seq<usize> = seq![];
    let mut done: Vec<DisplayItem> = Vec::new();
    let mut open: Vec<usize> = Vec::new();
    let mut in_trip = false;
    assert(items_view(done@) =~= seq![]);
    for i in 0..scraped_data.len()
        invariant
            recs == records_view(scraped_data@),
            shown == shown_indices(
                recs.take(i as int),
                show_oot_events,
                show_input_events,
                show_report_events,
                show_debug_events,
            ),
            group_run(recs, shown) == (GroupState {
                done: items_view(done@),
                open: if in_trip {
                    Some(open@)
                } else {
                    None
                },
            }),
    {
        proof {
            assert(recs.take(i + 1).drop_last() =~= recs.take(i as int));
            assert(recs.take(i + 1).last() == recs[i as int]);
            assert(recs[i as int] == scraped_data@[i as int]@);
        }
        let item = &scraped_data[i];
        if should_show_event(
            item,
            show_oot_events,
            show_input_events,
            show_report_events,
            show_debug_events,
        ) {
            let ghost before_done = items_view(done@);
            let ghost before_open = open@;
            let et = item.event_type.as_str();
            assert(recs[i as int].event_type == et@);
            if str_eq(et, "SIGNON") {
                open = vec![i];
                in_trip = true;
                assert(open@ =~= seq![i]);
            } else if str_eq(et, "TRIP") {
                if in_trip {
                    open.push(i);
                    let section = open;
                    open = Vec::new();
                    let ghost sv = section@;
                    assert(sv =~= before_open.push(i));
                    done.push(DisplayItem::Trip(section));
                    assert(items_view(done@) =~= before_done.push(ShownItem::Trip(sv)));
                    in_trip = false;
                } else {
                    done.push(DisplayItem::TopLevel(i));
                    assert(items_view(done@) =~= before_done.push(ShownItem::TopLevel(i)));
                }
            } else {
                if in_trip {
                    open.push(i);
                    assert(open@ == before_open.push(i));
                } else {
                    done.push(DisplayItem::TopLevel(i));
                    assert(items_view(done@) =~= before_done.push(ShownItem::TopLevel(i)));
                }
            }
            assert(group_step(group_run(recs, shown), i, et@) == (GroupState {
                done: items_view(done@),
                open: if in_trip {
                    Some(open@)
                } else {
                    None
                },
            }));
            proof {
                let next = shown.push(i);
                assert(next.drop_last() =~= shown);
                assert(group_run(recs, next) == group_step(group_run(recs, shown), i, et@));
                shown = next;
            }
        }
    }
    assert(recs.take(scraped_data@.len() as int) =~= recs);
    if in_trip {
        let ghost before_done = items_view(done@);
        let ghost ov = open@;
        done.push(DisplayItem::Trip(open));
        assert(items_view(done@) =~= before_done.push(ShownItem::Trip(ov)));
    }
    done
}

// ---------------------------------------------------------------------
// Text.
// ---------------------------------------------------------------------

/// `s` padded with spaces on the right to at least `width` characters, as
/// `{:width}` formats it.
pub open spec fn padded(s: Seq<char>, width: nat) -> Seq<char> {
    if s.len() >= width {
        s
    } else {
        s + Seq::new((width - s.len()) as nat, |i: int| ' ')
    }
}

/// `t` padded with spaces to at least `width` characters.
pub fn padded_text(t: &str, width: usize) -> (r: String)
    ensures
        r@ == padded(t@, width as nat),
{
    let mut r = owned(t);
    let n = crate::text::chars_of(t).len();
    let mut k = n;
    while k < width
        invariant
            n == t@.len(),
            k >= n,
            n < width ==> k <= width,
            n >= width ==> k == n,
            r@ == t@ + Seq::new((k - n) as nat, |i: int| ' '),
        decreases width - k,
    {
        string_push(&mut r, ' ');
        assert(t@ + Seq::new((k + 1 - n) as nat, |i: int| ' ') =~= (t@ + Seq::new(
            (k - n) as nat,
            |i: int| ' ',
        )).push(' '));
        k = k + 1;
    }
    if n >= width {
        assert(t@ + Seq::new(0, |i: int| ' ') =~= t@);
    } else {
        assert(k == width);
    }
    r
}

/// The header of a trip section: `TRIP <trip> - <date and time>`.
pub open spec fn trip_header_text(rec: ScrapedView) -> Seq<char> {
    "TRIP "@ + rec.trip_num + " - "@ + rec.date_time
}

/// The header of a trip section, see [`trip_header_text`].
pub fn trip_header(trip_data: &ScrapedData) -> (r: String)
    ensures
        r@ == trip_header_text(trip_data@),
{
    let mut r = owned("TRIP ");
    push_str(&mut r, trip_data.trip_num.as_str());
    push_str(&mut r, " - ");
    push_str(&mut r, trip_data.date_time.as_str());
    r
}

/// The header of an event inside a trip section: its type padded to 20
/// characters, a space, its date and time.
pub open spec fn event_header_text(rec: ScrapedView) -> Seq<char> {
    padded(rec.event_type, 20) + " "@ + rec.date_time
}

/// The header of an event inside a trip section, see [`event_header_text`].
pub fn event_header(item: &ScrapedData) -> (r: String)
    ensures
        r@ == event_header_text(item@),
{
    let mut r = padded_text(item.event_type.as_str(), 20);
    push_str(&mut r, " ");
    push_str(&mut r, item.date_time.as_str());
    r
}

/// The header of a top-level event: its type, a space, its date and time.
pub open spec fn top_level_header_text(rec: ScrapedView) -> Seq<char> {
    rec.event_type + " "@ + rec.date_time
}

/// The header of a top-level event, see [`top_level_header_text`].
pub fn top_level_header(item: &ScrapedData) -> (r: String)
    ensures
        r@ == top_level_header_text(item@),
{
    let mut r = owned(item.event_type.as_str());
    push_str(&mut r, " ");
    push_str(&mut r, item.date_time.as_str());
    r
}

/// The widget id of the event at `index` inside a trip section.
pub fn event_id(index: usize, item: &ScrapedData) -> (r: String)
    ensures
        r@ == "event_"@ + decimal(index as nat) + "_"@ + item.event_type@,
{
    let mut r = owned("event_");
    push_decimal(&mut r, index as u64);
    push_str(&mut r, "_");
    push_str(&mut r, item.event_type.as_str());
    r
}

/// The widget id of the top-level event at `index`.
pub fn top_level_id(index: usize, item: &ScrapedData) -> (r: String)
    ensures
        r@ == decimal(index as nat) + "_"@ + item.event_type@,
{
    let mut r = String::new();
    push_decimal(&mut r, index as u64);
    push_str(&mut r, "_");
    push_str(&mut r, item.event_type.as_str());
    assert(r@ =~= decimal(index as nat) + "_"@ + item.event_type@);
    r
}

/// The rows of an event's detail: each detail with its label padded to 20
/// characters, then its latitude, longitude, speed and signal strength.
pub open spec fn detail_rows_text(rec: ScrapedView) -> Seq<(Seq<char>, Seq<char>)> {
    rec.ev_detail.map_values(|p: (Seq<char>, Seq<char>)| (padded(p.0, 20), p.1)) + seq![
        (padded("GPS Latitude"@, 20), rec.lat),
        (padded("GPS Longitude"@, 20), rec.lon),
        (padded("GPS Speed"@, 20), decimal(rec.gps_speed as nat)),
        (padded("GPS RSSI"@, 20), decimal(rec.gps_rssi as nat)),
    ]
}

/// The view of a list of rows.
pub open spec fn rows_view(v: Seq<(String, String)>) -> Seq<(Seq<char>, Seq<char>)> {
    v.map_values(|p: (String, String)| (p.0@, p.1@))
}

/// A number in decimal.
fn decimal_text(n: u32) -> (r: String)
    ensures
        r@ == decimal(n as nat),
{
    let mut r = String::new();
    push_decimal(&mut r, n as u64);
    assert(r@ =~= decimal(n as nat));
    r
}

/// The rows of an event's detail, see [`detail_rows_text`].
pub fn detail_rows(item: &ScrapedData) -> (r: Vec<(String, String)>)
    ensures
        rows_view(r@) == detail_rows_text(item@),
{
    let ghost pv = item@.ev_detail;
    let mut r: Vec<(String, String)> = Vec::new();
    for k in 0..item.ev_detail.len()
        invariant
            pv == item@.ev_detail,
            rows_view(r@) == pv.take(k as int).map_values(
                |p: (Seq<char>, Seq<char>)| (padded(p.0, 20), p.1),
            ),
    {
        let key = padded_text(item.ev_detail[k].0.as_str(), 20);
        let value = item.ev_detail[k].1.clone();
        let ghost before = rows_view(r@);
        assert(pv[k as int] == (item.ev_detail@[k as int].0@, item.ev_detail@[k as int].1@));
        let ghost kv = (key@, value@);
        r.push((key, value));
        assert(rows_view(r@) =~= before.push(kv));
        assert(pv.take(k + 1) =~= pv.take(k as int).push(pv[k as int]));
        assert(rows_view(r@) =~= pv.take(k + 1).map_values(
            |p: (Seq<char>, Seq<char>)| (padded(p.0, 20), p.1),
        ));
    }
    let ghost head = rows_view(r@);
    r.push((padded_text("GPS Latitude", 20), item.gps_locn.lat.clone()));
    r.push((padded_text("GPS Longitude", 20), item.gps_locn.lon.clone()));
    r.push((padded_text("GPS Speed", 20), decimal_text(item.gps_speed)));
    r.push((padded_text("GPS RSSI", 20), decimal_text(item.gps_rssi)));
    assert(pv.take(pv.len() as int) =~= pv);
    assert(rows_view(r@) =~= detail_rows_text(item@));
    r
}

/// The log line for a selected trip.
pub fn handle_trip_selected(trip_num: &str) -> (r: String)
    ensures
        r@ == "Trip selected: "@ + trip_num@,
{
    let mut r = owned("Trip selected: ");
    push_str(&mut r, trip_num);
    r
}

/// The log line for a selected event of a trip.
pub fn handle_event_selected(trip_num: &str, event_type: &str) -> (r: String)
    ensures
        r@ == "Trip selected: "@ + trip_num@ + ", event "@ + event_type@,
{
    let mut r = owned("Trip selected: ");
    push_str(&mut r, trip_num);
    push_str(&mut r, ", event ");
    push_str(&mut r, event_type);
    r
}

// ---------------------------------------------------------------------
// Laws.
// ---------------------------------------------------------------------

/// A `SIGNON` event passes the display filter whatever the settings.
pub proof fn lemma_signon_always_shown(rec: ScrapedView, oot: bool, input: bool, report: bool, debug: bool)
    requires
        rec.event_type == "SIGNON"@,
    ensures
        shows(rec, oot, input, report, debug),
{
}

/// The Show settings: a `REPORT`, `DEBUG` or `INPUT` event passes the
/// filter exactly when it was recorded on a trip and its own setting is on;
/// a `TRIP` event exactly when it was recorded on a trip; any other event on
/// a trip always passes. Each setting affects only events of its own kind,
/// and turning a setting on never hides an event.
pub proof fn lemma_show_settings(rec: ScrapedView, oot: bool, input: bool, report: bool, debug: bool)
    ensures
        rec.event_type == "REPORT"@ ==> shows(rec, oot, input, report, debug) == (report
            && rec.on_trip),
        rec.event_type == "DEBUG"@ ==> shows(rec, oot, input, report, debug) == (debug
            && rec.on_trip),
        rec.event_type == "INPUT"@ ==> shows(rec, oot, input, report, debug) == (input
            && rec.on_trip),
        rec.event_type == "TRIP"@ ==> shows(rec, oot, input, report, debug) == rec.on_trip,
        rec.on_trip && rec.event_type != "REPORT"@ && rec.event_type != "DEBUG"@
            && rec.event_type != "INPUT"@ ==> shows(rec, oot, input, report, debug),
        !rec.on_trip ==> (shows(rec, oot, input, report, debug) ==> rec.event_type == "SIGNON"@
            || oot),
        rec.event_type != "REPORT"@ ==> shows(rec, oot, input, true, debug) == shows(
            rec,
            oot,
            input,
            false,
            debug,
        ),
        rec.event_type != "DEBUG"@ ==> shows(rec, oot, input, report, true) == shows(
            rec,
            oot,
            input,
            report,
            false,
        ),
        rec.event_type != "INPUT"@ ==> shows(rec, oot, true, report, debug) == shows(
            rec,
            oot,
            false,
            report,
            debug,
        ),
        shows(rec, false, false, false, false) ==> shows(rec, oot, input, report, debug),
{
    reveal_strlit("SIGNON");
    reveal_strlit("TRIP");
    reveal_strlit("REPORT");
    reveal_strlit("DEBUG");
    reveal_strlit("INPUT");
    assert("REPORT"@[0] != "SIGNON"@[0]);
    assert("REPORT"@ != "SIGNON"@);
    assert("DEBUG"@[0] != "INPUT"@[0]);
    assert("DEBUG"@ != "INPUT"@);
    assert("TRIP"@ != "SIGNON"@);
    assert("DEBUG"@ != "SIGNON"@ && "DEBUG"@ != "TRIP"@ && "DEBUG"@ != "REPORT"@);
    assert("INPUT"@ != "SIGNON"@ && "INPUT"@ != "TRIP"@ && "INPUT"@ != "REPORT"@);
    assert("REPORT"@ != "TRIP"@);
}

/// The positions of the events of an entry.
pub open spec fn item_events(it: ShownItem) -> Seq<usize> {
    match it {
        ShownItem::TopLevel(i) => seq![i],
        ShownItem::Trip(evs) => evs,
    }
}

/// The positions of the events of a list of entries, entry by entry.
pub open spec fn flatten(items: Seq<ShownItem>) -> Seq<usize>
    decreases items.len(),
{
    if items.len() == 0 {
        seq![]
    } else {
        flatten(items.drop_last()) + item_events(items.last())
    }
}

/// A trip section is a `SIGNON` followed by events that are not.
pub open spec fn section_wf(recs: Seq<ScrapedView>, evs: Seq<usize>) -> bool {
    &&& evs.len() >= 1
    &&& recs[evs[0] as int].event_type == "SIGNON"@
    &&& forall|j: int| 1 <= j < evs.len() ==> recs[#[trigger] evs[j] as int].event_type != "SIGNON"@
}

/// Each entry is well formed: a top-level event is no `SIGNON`, and a trip
/// section opens with its `SIGNON`.
pub open spec fn entry_wf(recs: Seq<ScrapedView>, it: ShownItem) -> bool {
    match it {
        ShownItem::TopLevel(i) => recs[i as int].event_type != "SIGNON"@,
        ShownItem::Trip(evs) => section_wf(recs, evs),
    }
}

/// The grouping state is well formed.
pub open spec fn state_wf(recs: Seq<ScrapedView>, st: GroupState) -> bool {
    &&& forall|k: int| 0 <= k < st.done.len() ==> entry_wf(recs, #[trigger] st.done[k])
    &&& st.open matches Some(evs) ==> section_wf(recs, evs)
}

proof fn lemma_run_wf(recs: Seq<ScrapedView>, shown: Seq<usize>)
    ensures
        state_wf(recs, group_run(recs, shown)),
    decreases shown.len(),
{
    if shown.len() > 0 {
        lemma_run_wf(recs, shown.drop_last());
        let st = group_run(recs, shown.drop_last());
        let i = shown.last();
        let nx = group_run(recs, shown);
        if let Some(evs) = st.open {
            let ev2 = evs.push(i);
            if recs[i as int].event_type != "SIGNON"@ {
                assert forall|j: int| 1 <= j < ev2.len() implies recs[#[trigger] ev2[j] as int].event_type
                    != "SIGNON"@ by {
                    if j < evs.len() {
                        assert(ev2[j] == evs[j]);
                    }
                }
                assert(section_wf(recs, ev2));
            }
        }
        assert forall|k: int| 0 <= k < nx.done.len() implies entry_wf(recs, #[trigger] nx.done[k]) by {
            if k < st.done.len() {
                assert(nx.done[k] == st.done[k]);
            }
        }
    }
}

/// Every entry of the event log is well formed: a trip section opens with
/// a `SIGNON` and holds no other, and no `SIGNON` stands on its own.
pub proof fn lemma_plan_entries_wf(
    recs: Seq<ScrapedView>,
    oot: bool,
    input: bool,
    report: bool,
    debug: bool,
)
    ensures
        forall|k: int|
            0 <= k < display_plan(recs, oot, input, report, debug).len() ==> entry_wf(
                recs,
                #[trigger] display_plan(recs, oot, input, report, debug)[k],
            ),
{
    let st = group_run(recs, shown_indices(recs, oot, input, report, debug));
    lemma_run_wf(recs, shown_indices(recs, oot, input, report, debug));
    let p = display_plan(recs, oot, input, report, debug);
    assert forall|k: int| 0 <= k < p.len() implies entry_wf(recs, #[trigger] p[k]) by {
        if k < st.done.len() {
            assert(p[k] == st.done[k]);
        }
    }
}

/// No shown `SIGNON` arrives while a trip is open.
pub open spec fn no_dropped_trip(recs: Seq<ScrapedView>, shown: Seq<usize>) -> bool {
    forall|k: int|
        0 <= k < shown.len() && recs[#[trigger] shown[k] as int].event_type == "SIGNON"@
            ==> group_run(recs, shown.take(k)).open is None
}

/// The events of an open trip.
pub open spec fn open_events(o: Option<Seq<usize>>) -> Seq<usize> {
    match o {
        Some(evs) => evs,
        None => seq![],
    }
}

proof fn lemma_flatten_push(items: Seq<ShownItem>, it: ShownItem)
    ensures
        flatten(items.push(it)) == flatten(items) + item_events(it),
{
    assert(items.push(it).drop_last() =~= items);
}

proof fn lemma_run_accounts(recs: Seq<ScrapedView>, shown: Seq<usize>)
    requires
        no_dropped_trip(recs, shown),
    ensures
        flatten(group_run(recs, shown).done) + open_events(group_run(recs, shown).open) == shown,
    decreases shown.len(),
{
    if shown.len() == 0 {
        assert(flatten(seq![]) + open_events(None) =~= shown);
    } else {
        let pre = shown.drop_last();
        assert forall|k: int|
            0 <= k < pre.len() && recs[#[trigger] pre[k] as int].event_type == "SIGNON"@ implies group_run(
            recs,
            pre.take(k),
        ).open is None by {
            assert(pre.take(k) =~= shown.take(k));
            assert(shown[k] == pre[k]);
        }
        lemma_run_accounts(recs, pre);
        let st = group_run(recs, pre);
        let i = shown.last();
        let et = recs[i as int].event_type;
        assert(shown.take(pre.len() as int) =~= pre);
        assert(shown[pre.len() as int] == i);
        if et == "SIGNON"@ {
            assert(st.open is None);
            assert(flatten(st.done) =~= pre);
            assert(flatten(st.done) + seq![i] =~= shown);
        } else if et == "TRIP"@ {
            match st.open {
                Some(evs) => {
                    lemma_flatten_push(st.done, ShownItem::Trip(evs.push(i)));
                    assert(flatten(st.done) + evs.push(i) =~= (flatten(st.done) + evs).push(i));
                },
                None => {
                    lemma_flatten_push(st.done, ShownItem::TopLevel(i));
                    assert(flatten(st.done) + seq![i] =~= (flatten(st.done) + seq![]).push(i));
                },
            }
        } else {
            match st.open {
                Some(evs) => {
                    assert(flatten(st.done) + evs.push(i) =~= (flatten(st.done) + evs).push(i));
                },
                None => {
                    lemma_flatten_push(st.done, ShownItem::TopLevel(i));
                    assert(flatten(st.done) + seq![i] =~= (flatten(st.done) + seq![]).push(i));
                },
            }
        }
        assert(pre.push(i) =~= shown);
    }
}

/// Each event that passes the filter appears exactly once in the event log,
/// in order, provided that no `SIGNON` arrives while a trip is still open
/// (such a `SIGNON` drops the open trip's events).
pub proof fn lemma_plan_shows_each_once(
    recs: Seq<ScrapedView>,
    oot: bool,
    input: bool,
    report: bool,
    debug: bool,
)
    requires
        no_dropped_trip(recs, shown_indices(recs, oot, input, report, debug)),
    ensures
        flatten(display_plan(recs, oot, input, report, debug)) == shown_indices(
            recs,
            oot,
            input,
            report,
            debug,
        ),
{
    let shown = shown_indices(recs, oot, input, report, debug);
    lemma_run_accounts(recs, shown);
    let st = group_run(recs, shown);
    match st.open {
        Some(evs) => {
            lemma_flatten_push(st.done, ShownItem::Trip(evs));
        },
        None => {
            assert(flatten(st.done) + seq![] =~= flatten(st.done));
        },
    }
}

} // verus!
