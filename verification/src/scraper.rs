//! The scraper: finds the units in a log, the firmware they run, and the
//! events that the selected unit recorded.
//!
//! A log is a list of records, newest first. Three kinds of record matter:
//! any record that names a unit (`[UNIT 1234]`), the firmware record of a
//! software start, and the event records. Events are read from the oldest
//! record to the newest; a `SIGNON` opens a trip and a `TRIP` closes it, and
//! every event in between carries the trip's number.

use vstd::prelude::*;

use crate::event_detail::{
    battery_pairs, decode_tail, opt_text, pairs_view, ungroup_event_data, EventDetails,
};
use crate::numeric::{is_digit, parse_unsigned, unsigned_value, IntErrorKind};
use crate::pattern::{caps_within, lemma_search_spans_within, search, search_exec, Caps, Captures, Tok};
use crate::shapes::{
    shape_event_line, shape_event_line_exec, shape_firmware_line, shape_firmware_line_exec,
    shape_unit_tag, shape_unit_tag_exec,
};
use crate::text::{chars_eq, chars_of, copy_string, owned, piece, push_str, str_eq};
use crate::timestamp::{chrono_day_first, chrono_reformat};

verus! {

/// Where the unit was when it recorded an event: latitude and longitude as
/// recorded, in units of 10⁻⁷ degree (an optional `-` and decimal digits).
pub struct GpsLocation {
    pub lat: String,
    pub lon: String,
}

/// One event of the selected unit.
pub struct ScrapedData {
    /// `dd/mm/yyyy hh:mm:ss`, or the record's own date and time where they
    /// could not be read.
    pub date_time: String,
    pub unix_time: u64,
    /// The event happened inside a trip.
    pub on_trip: bool,
    /// The trip the event belongs to; empty outside trips.
    pub trip_num: String,
    pub event_type: String,
    /// The event's detail fields, labelled.
    pub ev_detail: Vec<(String, String)>,
    /// The decoder knows the kind of event.
    pub ev_supported: bool,
    pub gps_rssi: u32,
    pub gps_speed: u32,
    pub gps_locn: GpsLocation,
}

/// The mathematical content of a [`ScrapedData`].
pub struct ScrapedView {
    pub date_time: Seq<char>,
    pub unix_time: u64,
    pub on_trip: bool,
    pub trip_num: Seq<char>,
    pub event_type: Seq<char>,
    pub ev_detail: Seq<(Seq<char>, Seq<char>)>,
    pub ev_supported: bool,
    pub gps_rssi: u32,
    pub gps_speed: u32,
    pub lat: Seq<char>,
    pub lon: Seq<char>,
}

impl View for ScrapedData {
    type V = ScrapedView;

    open spec fn view(&self) -> ScrapedView {
        ScrapedView {
            date_time: self.date_time@,
            unix_time: self.unix_time,
            on_trip: self.on_trip,
            trip_num: self.trip_num@,
            event_type: self.event_type@,
            ev_detail: pairs_view(self.ev_detail@),
            ev_supported: self.ev_supported,
            gps_rssi: self.gps_rssi,
            gps_speed: self.gps_speed,
            lat: self.gps_locn.lat@,
            lon: self.gps_locn.lon@,
        }
    }
}

/// The view of a list of events.
pub open spec fn records_view(v: Seq<ScrapedData>) -> Seq<ScrapedView> {
    v.map_values(|d: ScrapedData| d@)
}

/// The view of a list of strings.
pub open spec fn texts_view(v: Seq<String>) -> Seq<Seq<char>> {
    v.map_values(|s: String| s@)
}

/// The view of a list of optional strings.
pub open spec fn opt_texts_view(v: Seq<Option<String>>) -> Seq<Option<Seq<char>>> {
    v.map_values(|o: Option<String>| opt_text(o))
}

/// Why the events of a log could not all be read.
#[derive(Clone, Copy, Debug, PartialEq, Eq)]
pub enum ScrapeError {
    /// A coordinate is not a number.
    InvalidFloat,
    /// The signal strength or the speed is not a `u32`.
    InvalidInt(IntErrorKind),
}

/// The standard library's message for each error.
pub open spec fn error_message(e: ScrapeError) -> Seq<char> {
    match e {
        ScrapeError::InvalidFloat => "invalid float literal"@,
        ScrapeError::InvalidInt(IntErrorKind::Empty) => "cannot parse integer from empty string"@,
        ScrapeError::InvalidInt(IntErrorKind::InvalidDigit) => "invalid digit found in string"@,
        ScrapeError::InvalidInt(IntErrorKind::PosOverflow) => "number too large to fit in target type"@,
    }
}

impl ScrapeError {
    /// The error's message.
    pub fn message(&self) -> (r: String)
        ensures
            r@ == error_message(*self),
    {
        match self {
            ScrapeError::InvalidFloat => owned("invalid float literal"),
            ScrapeError::InvalidInt(IntErrorKind::Empty) => owned(
                "cannot parse integer from empty string",
            ),
            ScrapeError::InvalidInt(IntErrorKind::InvalidDigit) => owned(
                "invalid digit found in string",
            ),
            ScrapeError::InvalidInt(IntErrorKind::PosOverflow) => owned(
                "number too large to fit in target type",
            ),
        }
    }
}

// ---------------------------------------------------------------------
// Units and firmware.
// ---------------------------------------------------------------------

/// The text of group `g` of match `c` in `t`, or nothing.
pub open spec fn field(t: Seq<char>, c: Caps, g: int) -> Seq<char> {
    match c.1[g] {
        Some((a, b)) => t.subrange(a as int, b as int),
        None => seq![],
    }
}

/// The unit that a record names, if any: the digits of its first
/// `[UNIT n]` tag.
pub open spec fn unit_of_record(line: Seq<char>) -> Option<Seq<char>> {
    match search(shape_unit_tag(), line, 2) {
        Some(c) => Some(field(line, c, 1)),
        None => None,
    }
}

/// The units that the records name, each once, in the order in which they
/// first appear.
pub open spec fn units_in(lines: Seq<Seq<char>>) -> Seq<Seq<char>>
    decreases lines.len(),
{
    if lines.len() == 0 {
        seq![]
    } else {
        let prev = units_in(lines.drop_last());
        match unit_of_record(lines.last()) {
            Some(u) => if prev.contains(u) {
                prev
            } else {
                prev.push(u)
            },
            None => prev,
        }
    }
}

/// The firmware that a firmware record names.
pub open spec fn firmware_of_record(line: Seq<char>) -> Option<Seq<char>> {
    match search(shape_firmware_line(), line, 7) {
        Some(c) => Some(field(line, c, 6)),
        None => None,
    }
}

/// The firmware named by the last firmware record among the first `n`
/// records.
pub open spec fn firmware_in(lines: Seq<Seq<char>>, n: int) -> Option<Seq<char>>
    decreases n,
{
    if n <= 0 || n > lines.len() {
        None
    } else {
        match firmware_of_record(lines[n - 1]) {
            Some(f) => Some(f),
            None => firmware_in(lines, n - 1),
        }
    }
}

/// The text of group `g` of a match, as a `String`.
fn field_exec(t: &Vec<char>, c: &Captures, n: usize, g: usize) -> (r: String)
    requires
        caps_within(c.view(), n as nat, t@.len() as int),
        g < n,
    ensures
        r@ == field(t@, c.view(), g as int),
{
    match c.spans[g] {
        Some((a, b)) => piece(t, a, b),
        None => String::new(),
    }
}

/// The unit that a record names, if any.
pub fn unit_of_record_exec(line: &str, shape: &Vec<Tok>) -> (r: Option<String>)
    requires
        shape@ == shape_unit_tag(),
    ensures
        opt_text(r) == unit_of_record(line@),
{
    let t = chars_of(line);
    let found = search_exec(shape, &t, 2);
    proof {
        lemma_search_spans_within(shape@, t@, 2);
    }
    match found {
        Some(c) => Some(field_exec(&t, &c, 2, 1)),
        None => None,
    }
}

/// Whether `v` holds a string equal to `s`.
fn contains_text(v: &Vec<String>, s: &String) -> (r: bool)
    ensures
        r == texts_view(v@).contains(s@),
{
    let cs = chars_of(s.as_str());
    let mut i: usize = 0;
    while i < v.len()
        invariant
            i <= v.len(),
            cs@ == s@,
            forall|j: int| 0 <= j < i ==> v@[j]@ != s@,
        decreases v.len() - i,
    {
        let ci = chars_of(v[i].as_str());
        if chars_eq(&ci, &cs) {
            assert(texts_view(v@)[i as int] == s@);
            return true;
        }
        i = i + 1;
    }
    assert forall|j: int| 0 <= j < texts_view(v@).len() implies texts_view(v@)[j] != s@ by {}
    false
}

/// The units that the records name, each once, in order of first
/// appearance.
pub fn find_devices(lines: &Vec<String>) -> (r: Vec<String>)
    ensures
        texts_view(r@) == units_in(texts_view(lines@)),
{
    let shape = shape_unit_tag_exec();
    let mut r: Vec<String> = Vec::new();
    for i in 0..lines.len()
        invariant
            shape@ == shape_unit_tag(),
            texts_view(r@) == units_in(texts_view(lines@).take(i as int)),
    {
        let ghost pre = texts_view(lines@).take(i as int);
        assert(texts_view(lines@).take(i + 1).drop_last() =~= pre);
        assert(texts_view(lines@).take(i + 1).last() == lines@[i as int]@);
        match unit_of_record_exec(lines[i].as_str(), &shape) {
            Some(u) => {
                if !contains_text(&r, &u) {
                    r.push(u);
                    assert(texts_view(r@) =~= units_in(pre).push(u@));
                }
            },
            None => {
            },
        }
    }
    assert(texts_view(lines@).take(lines@.len() as int) =~= texts_view(lines@));
    r
}

/// The firmware named by the last firmware record of the log, if any.
pub fn find_firmware(lines: &Vec<String>) -> (r: Option<String>)
    ensures
        opt_text(r) == firmware_in(texts_view(lines@), lines@.len() as int),
{
    let shape = shape_firmware_line_exec();
    let mut n = lines.len();
    while n > 0
        invariant
            n <= lines.len(),
            shape@ == shape_firmware_line(),
            firmware_in(texts_view(lines@), lines@.len() as int) == firmware_in(
                texts_view(lines@),
                n as int,
            ),
        decreases n,
    {
        let t = chars_of(lines[n - 1].as_str());
        let found = search_exec(&shape, &t, 7);
        proof {
            lemma_search_spans_within(shape@, t@, 7);
        }
        assert(texts_view(lines@)[n - 1] == t@);
        match found {
            Some(c) => {
                return Some(field_exec(&t, &c, 7, 6));
            },
            None => {
            },
        }
        n = n - 1;
    }
    None
}

// ---------------------------------------------------------------------
// Events.
// ---------------------------------------------------------------------

/// Whether a recorded coordinate reads as a number: an optional `-`, then
/// at least one ASCII digit.
pub open spec fn coordinate_reads(s: Seq<char>) -> bool {
    coordinate_digits(s).len() > 0 && forall|i: int|
        0 <= i < coordinate_digits(s).len() ==> is_digit(#[trigger] coordinate_digits(s)[i])
}

/// A recorded coordinate without its sign.
pub open spec fn coordinate_digits(s: Seq<char>) -> Seq<char> {
    if s.len() > 0 && s[0] == '-' {
        s.drop_first()
    } else {
        s
    }
}

/// Whether a recorded coordinate reads as a number.
fn coordinate_reads_exec(s: &Vec<char>) -> (r: bool)
    ensures
        r == coordinate_reads(s@),
{
    let start: usize = if s.len() > 0 && s[0] == '-' {
        1
    } else {
        0
    };
    let ghost body = coordinate_digits(s@);
    assert(body =~= s@.subrange(start as int, s@.len() as int));
    if start >= s.len() {
        return false;
    }
    let mut i = start;
    while i < s.len()
        invariant
            start <= i <= s.len(),
            body == coordinate_digits(s@),
            body =~= s@.subrange(start as int, s@.len() as int),
            forall|j: int| 0 <= j < i - start ==> is_digit(#[trigger] body[j]),
        decreases s.len() - i,
    {
        assert(body[i - start] == s@[i as int]);
        if !('0' <= s[i] && s[i] <= '9') {
            assert(0 <= i - start < body.len());
            assert(!is_digit(coordinate_digits(s@)[i - start]));
            return false;
        }
        i = i + 1;
    }
    true
}

/// The date and time shown for an event: chrono's day-first rewriting of
/// the record's timestamp where it has one, else the record's own date and
/// time joined by a space.
pub open spec fn shown_date_time(date: Seq<char>, time: Seq<char>, rewritten: Option<Seq<char>>) -> Seq<
    char,
> {
    match rewritten {
        Some(s) => s,
        None => date + seq![' '] + time,
    }
}

/// The date and time shown for an event, given chrono's rewriting of the
/// record's timestamp.
pub fn shown_date_time_exec(date: &String, time: &String, rewritten: Option<String>) -> (r: String)
    ensures
        r@ == shown_date_time(date@, time@, opt_text(rewritten)),
{
    match rewritten {
        Some(s) => s,
        None => {
            let mut r = copy_string(date);
            push_str(&mut r, " ");
            push_str(&mut r, time.as_str());
            proof {
                reveal_strlit(" ");
            }
            assert(r@ =~= date@ + seq![' '] + time@);
            r
        },
    }
}

/// How far reading the events has got.
#[derive(Clone, Copy, Debug, PartialEq, Eq)]
pub enum ScanOutcome {
    /// Every record so far was read.
    Running,
    /// A record's coordinates, signal strength or speed did not read.
    Failed(ScrapeError),
    /// A record's time stamp did not read as a `u64`.
    UnreadableTime,
}

/// The state of a scan: the open trip's number, the events read so far,
/// and the outcome.
pub struct ScanState {
    pub trip: Seq<char>,
    pub out: Seq<ScrapedView>,
    pub outcome: ScanOutcome,
}

/// The state before any record.
pub open spec fn scan_start() -> ScanState {
    ScanState { trip: seq![], out: seq![], outcome: ScanOutcome::Running }
}

/// The event of unit `device` that the record `line` holds, given the
/// outcome `volts` of converting its battery reading, on top of state `st`.
/// Records of other units, and records that are not events, change nothing;
/// once a record has failed to read, nothing changes any more.
pub open spec fn scan_record(
    st: ScanState,
    line: Seq<char>,
    device: Seq<char>,
    volts: Option<Seq<char>>,
) -> ScanState {
    if !(st.outcome is Running) {
        st
    } else {
        match search(shape_event_line(), line, 13) {
            None => st,
            Some(c) => if field(line, c, 3) != device {
                st
            } else if !coordinate_reads(field(line, c, 6)) || !coordinate_reads(field(line, c, 7)) {
                ScanState { outcome: ScanOutcome::Failed(ScrapeError::InvalidFloat), ..st }
            } else {
                match unsigned_value(field(line, c, 9), u32::MAX as nat) {
                    Err(k) => ScanState {
                        outcome: ScanOutcome::Failed(ScrapeError::InvalidInt(k)),
                        ..st
                    },
                    Ok(rssi) => match unsigned_value(field(line, c, 10), u32::MAX as nat) {
                        Err(k) => ScanState {
                            outcome: ScanOutcome::Failed(ScrapeError::InvalidInt(k)),
                            ..st
                        },
                        Ok(speed) => match unsigned_value(field(line, c, 5), u64::MAX as nat) {
                            Err(_) => ScanState { outcome: ScanOutcome::UnreadableTime, ..st },
                            Ok(unix) => {
                                let et = field(line, c, 11);
                                let d = decode_tail(et, field(line, c, 12));
                                let trip = if et == "SIGNON"@ {
                                    field(line, c, 4)
                                } else {
                                    st.trip
                                };
                                let date = field(line, c, 1);
                                let time = field(line, c, 2);
                                let rec = ScrapedView {
                                    date_time: shown_date_time(
                                        date,
                                        time,
                                        chrono_day_first(date + seq![' '] + time),
                                    ),
                                    unix_time: unix as u64,
                                    on_trip: !d.leaves_trip,
                                    trip_num: trip,
                                    event_type: et,
                                    ev_detail: d.pairs + battery_pairs(
                                        d.battery,
                                        d.unknown_mark,
                                        volts,
                                    ),
                                    ev_supported: !d.unsupported,
                                    gps_rssi: rssi as u32,
                                    gps_speed: speed as u32,
                                    lat: field(line, c, 6),
                                    lon: field(line, c, 7),
                                };
                                ScanState {
                                    trip: if et == "TRIP"@ {
                                        seq![]
                                    } else {
                                        trip
                                    },
                                    out: st.out.push(rec),
                                    outcome: ScanOutcome::Running,
                                }
                            },
                        },
                    },
                }
            },
        }
    }
}

/// The state after reading the last `count` records of `lines`, newest
/// last, i.e. from the end of the log towards its start.
pub open spec fn scan_records(
    lines: Seq<Seq<char>>,
    volts: Seq<Option<Seq<char>>>,
    device: Seq<char>,
    count: int,
) -> ScanState
    decreases count,
{
    if count <= 0 || count > lines.len() {
        scan_start()
    } else {
        let i = lines.len() - count;
        scan_record(scan_records(lines, volts, device, count - 1), lines[i], device, volts[i])
    }
}

/// The state after reading every record of the log.
pub open spec fn scan_log(lines: Seq<Seq<char>>, volts: Seq<Option<Seq<char>>>, device: Seq<char>) -> ScanState {
    scan_records(lines, volts, device, lines.len() as int)
}

/// Exec form of a scan's state.
pub struct Scan {
    pub trip: String,
    pub out: Vec<ScrapedData>,
    pub outcome: ScanOutcome,
}

impl Scan {
    pub open spec fn view(&self) -> ScanState {
        ScanState { trip: self.trip@, out: records_view(self.out@), outcome: self.outcome }
    }
}

fn copy_opt_string(o: &Option<String>) -> (r: Option<String>)
    ensures
        opt_text(r) == opt_text(*o),
{
    match o {
        Some(s) => Some(copy_string(s)),
        None => None,
    }
}

/// Reads one record into the scan.
fn scan_one(
    st: &mut Scan,
    line: &String,
    device: &Vec<char>,
    volts: &Option<String>,
    shape: &Vec<Tok>,
)
    requires
        shape@ == shape_event_line(),
    ensures
        final(st).view() == scan_record(old(st).view(), line@, device@, opt_text(*volts)),
{
    match st.outcome {
        ScanOutcome::Running => {},
        _ => {
            return;
        },
    }
    let t = chars_of(line.as_str());
    let found = search_exec(shape, &t, 13);
    proof {
        lemma_search_spans_within(shape@, t@, 13);
    }
    let c = match found {
        Some(c) => c,
        None => {
            return;
        },
    };
    let controller = chars_of(field_exec(&t, &c, 13, 3).as_str());
    if !chars_eq(&controller, device) {
        return;
    }
    let lat = field_exec(&t, &c, 13, 6);
    let lon = field_exec(&t, &c, 13, 7);
    if !coordinate_reads_exec(&chars_of(lat.as_str())) || !coordinate_reads_exec(
        &chars_of(lon.as_str()),
    ) {
        st.outcome = ScanOutcome::Failed(ScrapeError::InvalidFloat);
        return;
    }
    let rssi = match parse_unsigned(&chars_of(field_exec(&t, &c, 13, 9).as_str()), 0xffff_ffff) {
        Ok(v) => v as u32,
        Err(k) => {
            st.outcome = ScanOutcome::Failed(ScrapeError::InvalidInt(k));
            return;
        },
    };
    let speed = match parse_unsigned(&chars_of(field_exec(&t, &c, 13, 10).as_str()), 0xffff_ffff) {
        Ok(v) => v as u32,
        Err(k) => {
            st.outcome = ScanOutcome::Failed(ScrapeError::InvalidInt(k));
            return;
        },
    };
    let unix = match parse_unsigned(
        &chars_of(field_exec(&t, &c, 13, 5).as_str()),
        0xffff_ffff_ffff_ffff,
    ) {
        Ok(v) => v,
        Err(_) => {
            st.outcome = ScanOutcome::UnreadableTime;
            return;
        },
    };
    let et = field_exec(&t, &c, 13, 11);
    let detail = field_exec(&t, &c, 13, 12);
    let mut on_trip = true;
    let mut ev_supported = true;
    let details = if str_eq(et.as_str(), "OOS UPM") {
        proof {
            crate::event_detail::lemma_oos_upm_is_broken();
        }
        EventDetails { pairs: Vec::new(), battery: None, unknown_mark: false }
    } else {
        ungroup_event_data(copy_string(&et), detail.as_str(), &mut on_trip, &mut ev_supported)
    };
    let ev_detail = details.into_pairs(copy_opt_string(volts));
    if str_eq(et.as_str(), "SIGNON") {
        st.trip = field_exec(&t, &c, 13, 4);
    }
    let date = field_exec(&t, &c, 13, 1);
    let time = field_exec(&t, &c, 13, 2);
    let mut stamp = copy_string(&date);
    push_str(&mut stamp, " ");
    push_str(&mut stamp, time.as_str());
    proof {
        reveal_strlit(" ");
    }
    assert(stamp@ =~= date@ + seq![' '] + time@);
    let rewritten = chrono_reformat(stamp.as_str());
    let date_time = shown_date_time_exec(&date, &time, rewritten);
    let is_trip_end = str_eq(et.as_str(), "TRIP");
    let rec = ScrapedData {
        date_time,
        unix_time: unix,
        on_trip,
        trip_num: copy_string(&st.trip),
        event_type: et,
        ev_detail,
        ev_supported,
        gps_rssi: rssi,
        gps_speed: speed,
        gps_locn: GpsLocation { lat, lon },
    };
    let ghost out_before = st.out@;
    st.out.push(rec);
    assert(records_view(st.out@) =~= records_view(out_before).push(rec@));
    if is_trip_end {
        st.trip = String::new();
    }
}

/// Reads the events of unit `device` from the log, oldest record first,
/// stopping at the first record that does not read; `volts[i]` is the
/// battery reading of record `i` converted to volts with one decimal, or
/// `None` where the reading is not a number.
pub fn scan_device_lines(lines: &Vec<String>, volts: &Vec<Option<String>>, device: &str) -> (r: Scan)
    requires
        volts@.len() == lines@.len(),
    ensures
        r.view() == scan_log(texts_view(lines@), opt_texts_view(volts@), device@),
{
    let shape = shape_event_line_exec();
    let dev = chars_of(device);
    let mut st = Scan { trip: String::new(), out: Vec::new(), outcome: ScanOutcome::Running };
    assert(st.view() == scan_start()) by {
        assert(records_view(st.out@) =~= seq![]);
    }
    let mut count: usize = 0;
    while count < lines.len()
        invariant
            count <= lines.len(),
            volts@.len() == lines@.len(),
            shape@ == shape_event_line(),
            dev@ == device@,
            st.view() == scan_records(
                texts_view(lines@),
                opt_texts_view(volts@),
                device@,
                count as int,
            ),
        decreases lines.len() - count,
    {
        let i = lines.len() - 1 - count;
        scan_one(&mut st, &lines[i], &dev, &volts[i], &shape);
        count = count + 1;
    }
    st
}


/// The battery reading that record `line` carries, if it is an event
/// record whose kind has one: the text, in tenths of a volt, that the caller
/// converts to volts.
pub open spec fn battery_of_record(line: Seq<char>) -> Option<Seq<char>> {
    match search(shape_event_line(), line, 13) {
        Some(c) => decode_tail(field(line, c, 11), field(line, c, 12)).battery,
        None => None,
    }
}

/// The battery reading of each record, in order.
pub fn battery_readings(lines: &Vec<String>) -> (r: Vec<Option<String>>)
    ensures
        r@.len() == lines@.len(),
        forall|i: int| 0 <= i < lines@.len() ==> opt_text(#[trigger] r@[i]) == battery_of_record(lines@[i]@),
{
    let shape = shape_event_line_exec();
    let mut r: Vec<Option<String>> = Vec::new();
    for i in 0..lines.len()
        invariant
            shape@ == shape_event_line(),
            r@.len() == i,
            forall|j: int| 0 <= j < i ==> opt_text(#[trigger] r@[j]) == battery_of_record(lines@[j]@),
    {
        let t = chars_of(lines[i].as_str());
        let found = search_exec(&shape, &t, 13);
        proof {
            lemma_search_spans_within(shape@, t@, 13);
        }
        match found {
            Some(c) => {
                let et = field_exec(&t, &c, 13, 11);
                let detail = field_exec(&t, &c, 13, 12);
                if str_eq(et.as_str(), "OOS UPM") {
                    proof {
                        crate::event_detail::lemma_oos_upm_is_broken();
                    }
                    r.push(None);
                } else {
                    let mut on_trip = true;
                    let mut supported = true;
                    let d = ungroup_event_data(et, detail.as_str(), &mut on_trip, &mut supported);
                    r.push(d.battery);
                }
            },
            None => {
                r.push(None);
            },
        }
    }
    r
}

/// No unit appears twice in the list of units.
pub proof fn lemma_units_distinct(lines: Seq<Seq<char>>)
    ensures
        forall|i: int, j: int|
            0 <= i < j < units_in(lines).len() ==> units_in(lines)[i] != units_in(lines)[j],
    decreases lines.len(),
{
    if lines.len() > 0 {
        let prev = lines.drop_last();
        lemma_units_distinct(prev);
        if let Some(u) = unit_of_record(lines.last()) {
            if !units_in(prev).contains(u) {
                let all = units_in(lines);
                assert forall|i: int, j: int| 0 <= i < j < all.len() implies all[i] != all[j] by {
                    if j == all.len() - 1 {
                        assert(all[i] == units_in(prev)[i]);
                    } else {
                        assert(all[i] == units_in(prev)[i]);
                        assert(all[j] == units_in(prev)[j]);
                    }
                }
            }
        }
    }
}

/// The list of units holds exactly the units that the records name.
pub proof fn lemma_units_complete(lines: Seq<Seq<char>>)
    ensures
        forall|i: int|
            0 <= i < lines.len() ==> (#[trigger] unit_of_record(lines[i]) matches Some(u)
                ==> units_in(lines).contains(u)),
        forall|k: int|
            0 <= k < units_in(lines).len() ==> exists|i: int|
                0 <= i < lines.len() && #[trigger] unit_of_record(lines[i]) == Some(
                    #[trigger] units_in(lines)[k],
                ),
    decreases lines.len(),
{
    if lines.len() > 0 {
        let prev = lines.drop_last();
        lemma_units_complete(prev);
        assert forall|i: int|
            0 <= i < lines.len() implies (#[trigger] unit_of_record(lines[i]) matches Some(u)
                ==> units_in(lines).contains(u)) by {
            if i < lines.len() - 1 {
                assert(lines[i] == prev[i]);
                if let Some(u) = unit_of_record(lines[i]) {
                    assert(units_in(prev).contains(u));
                    let w = choose|w: int| 0 <= w < units_in(prev).len() && units_in(prev)[w] == u;
                    match unit_of_record(lines.last()) {
                        Some(v) => if !units_in(prev).contains(v) {
                            assert(units_in(lines)[w] == u);
                        },
                        None => {},
                    }
                }
            } else {
                if let Some(u) = unit_of_record(lines[i]) {
                    if !units_in(prev).contains(u) {
                        assert(units_in(lines)[units_in(lines).len() - 1] == u);
                    }
                }
            }
        }
        assert forall|k: int|
            0 <= k < units_in(lines).len() implies exists|i: int|
                0 <= i < lines.len() && #[trigger] unit_of_record(lines[i]) == Some(
                    #[trigger] units_in(lines)[k],
                ) by {
            if k < units_in(prev).len() {
                assert(units_in(lines)[k] == units_in(prev)[k]);
                let i = choose|i: int|
                    0 <= i < prev.len() && #[trigger] unit_of_record(prev[i]) == Some(
                        #[trigger] units_in(prev)[k],
                    );
                assert(lines[i] == prev[i]);
            } else {
                assert(unit_of_record(lines[lines.len() - 1]) == Some(units_in(lines)[k]));
            }
        }
    }
}

/// The trip number that the event after `out[k - 1]` inherits: none after a
/// `TRIP` or at the start, else the previous event's.
pub open spec fn inherited_trip(out: Seq<ScrapedView>, k: int) -> Seq<char> {
    if k <= 0 || out[k - 1].event_type == "TRIP"@ {
        seq![]
    } else {
        out[k - 1].trip_num
    }
}

/// Trip numbers carry from one event to the next: an event other than a
/// `SIGNON` has the trip number of the event before it, and none if that
/// event closed its trip with `TRIP` or if it is the first event read.
pub open spec fn trips_carried(out: Seq<ScrapedView>) -> bool {
    forall|k: int|
        0 <= k < out.len() && (#[trigger] out[k]).event_type != "SIGNON"@ ==> out[k].trip_num
            == inherited_trip(out, k)
}

proof fn lemma_scan_trips(
    lines: Seq<Seq<char>>,
    volts: Seq<Option<Seq<char>>>,
    device: Seq<char>,
    count: int,
)
    ensures
        trips_carried(scan_records(lines, volts, device, count).out),
        scan_records(lines, volts, device, count).trip == inherited_trip(
            scan_records(lines, volts, device, count).out,
            scan_records(lines, volts, device, count).out.len() as int,
        ),
    decreases count,
{
    reveal_strlit("TRIP");
    reveal_strlit("SIGNON");
    if count <= 0 || count > lines.len() {
    } else {
        lemma_scan_trips(lines, volts, device, count - 1);
        let prev = scan_records(lines, volts, device, count - 1);
        let cur = scan_records(lines, volts, device, count);
        if cur.out.len() > prev.out.len() {
            assert(cur.out.drop_last() == prev.out);
            assert forall|k: int|
                0 <= k < cur.out.len() && (#[trigger] cur.out[k]).event_type != "SIGNON"@ implies cur.out[k].trip_num
                    == inherited_trip(cur.out, k) by {
                if k < prev.out.len() {
                    assert(cur.out[k] == prev.out[k]);
                    if k > 0 {
                        assert(cur.out[k - 1] == prev.out[k - 1]);
                    }
                }
            }
        }
    }
}

/// Reading a log keeps trip numbers consistent: see [`trips_carried`].
pub proof fn lemma_trip_numbers_carry(
    lines: Seq<Seq<char>>,
    volts: Seq<Option<Seq<char>>>,
    device: Seq<char>,
)
    ensures
        trips_carried(scan_log(lines, volts, device).out),
{
    lemma_scan_trips(lines, volts, device, lines.len() as int);
}

/// The unit whose events are read: the only unit of the log, none (the
/// empty name) where the log names several.
pub open spec fn unit_to_read(lines: Seq<Seq<char>>) -> Seq<char> {
    if units_in(lines).len() == 1 {
        units_in(lines)[0]
    } else {
        seq![]
    }
}

/// Whether reading the events of `device` stops at a record whose time
/// stamp is not a `u64`.
pub fn has_unreadable_time(lines: &Vec<String>, volts: &Vec<Option<String>>, device: &str) -> (r: bool)
    requires
        volts@.len() == lines@.len(),
    ensures
        r == (scan_log(texts_view(lines@), opt_texts_view(volts@), device@).outcome
            is UnreadableTime),
{
    let s = scan_device_lines(lines, volts, device);
    match s.outcome {
        ScanOutcome::UnreadableTime => true,
        _ => false,
    }
}

/// `std::path::PathBuf`, carried by [`FileDialogMessage`].
#[verifier::external_type_specification]
#[verifier::external_body]
pub struct ExPathBuf(std::path::PathBuf);

/// What the file dialog reports back.
pub enum FileDialogMessage {
    /// A file was chosen.
    FileSelected(std::path::PathBuf),
    /// The dialog closed without a choice.
    DialogClosed,
}

/// The scraper's state: the units found in the loaded log, the one that is
/// selected, its firmware, and the events read for it.
pub struct Scraper {
    pub file_dialog_open: bool,
    pub processing_status: String,
    pub devices: Vec<String>,
    pub selected_device: String,
    pub device_id: String,
    pub device_fw: String,
    pub scrapings: Vec<ScrapedData>,
}

impl Scraper {
    /// A scraper with no log loaded.
    pub fn new() -> (r: Scraper)
        ensures
            r.file_dialog_open == false,
            r.processing_status@ == "No file selected."@,
            r.devices@.len() == 0,
            r.selected_device@ == Seq::<char>::empty(),
            r.device_id@ == Seq::<char>::empty(),
            r.device_fw@ == Seq::<char>::empty(),
            r.scrapings@.len() == 0,
    {
        Scraper {
            file_dialog_open: false,
            processing_status: owned("No file selected."),
            devices: Vec::new(),
            selected_device: String::new(),
            device_id: String::new(),
            device_fw: String::new(),
            scrapings: Vec::new(),
        }
    }

    /// Clears what was read from the previous log before a new one loads.
    pub fn reinitialize_data(&mut self)
        ensures
            final(self).file_dialog_open == false,
            final(self).processing_status@ == "Loading new file..."@,
            final(self).devices@.len() == 0,
            final(self).selected_device@ == Seq::<char>::empty(),
            final(self).device_id@ == Seq::<char>::empty(),
            final(self).device_fw@ == Seq::<char>::empty(),
            final(self).scrapings@.len() == 0,
    {
        self.processing_status = owned("Loading new file...");
        self.devices = Vec::new();
        self.device_id = String::new();
        self.selected_device = String::new();
        self.device_fw = String::new();
        self.file_dialog_open = false;
        self.scrapings = Vec::new();
    }

    /// The processing status, for display.
    pub fn get_processing_status(&self) -> (r: &str)
        ensures
            r@ == self.processing_status@,
    {
        self.processing_status.as_str()
    }

    /// Sets the firmware version from the last firmware record of the log,
    /// or to `Not defined.` where there is none.
    pub fn parse_firmware(&mut self, lines: &Vec<String>)
        ensures
            final(self).device_fw@ == match firmware_in(texts_view(lines@), lines@.len() as int) {
                Some(f) => f,
                None => "Not defined."@,
            },
            final(self).file_dialog_open == old(self).file_dialog_open,
            final(self).processing_status == old(self).processing_status,
            final(self).devices == old(self).devices,
            final(self).selected_device == old(self).selected_device,
            final(self).device_id == old(self).device_id,
            final(self).scrapings == old(self).scrapings,
    {
        match find_firmware(lines) {
            Some(f) => {
                self.device_fw = f;
            },
            None => {
                self.device_fw = owned("Not defined.");
            },
        }
    }

    /// Appends the events of unit `device_id` to the scrapings, from the
    /// oldest record on, up to the first record that does not read; that
    /// record's error is returned. `volts[i]` is the battery reading of
    /// record `i` in volts with one decimal, or `None` where it is not a
    /// number.
    pub fn parse_device_data(
        &mut self,
        lines: &Vec<String>,
        volts: &Vec<Option<String>>,
        device_id: &str,
    ) -> (r: Result<(), ScrapeError>)
        requires
            volts@.len() == lines@.len(),
            !(scan_log(texts_view(lines@), opt_texts_view(volts@), device_id@).outcome is UnreadableTime),
        ensures
            ({
                let sc = scan_log(texts_view(lines@), opt_texts_view(volts@), device_id@);
                &&& records_view(final(self).scrapings@) == records_view(old(self).scrapings@) + sc.out
                &&& match sc.outcome {
                    ScanOutcome::Failed(e) => r == Err::<(), ScrapeError>(e),
                    _ => r == Ok::<(), ScrapeError>(()),
                }
            }),
            final(self).file_dialog_open == old(self).file_dialog_open,
            final(self).processing_status == old(self).processing_status,
            final(self).devices == old(self).devices,
            final(self).selected_device == old(self).selected_device,
            final(self).device_id == old(self).device_id,
            final(self).device_fw == old(self).device_fw,
    {
        let sc = scan_device_lines(lines, volts, device_id);
        let Scan { trip: _, out, outcome } = sc;
        let mut out = out;
        let ghost before = records_view(self.scrapings@);
        let ghost added = records_view(out@);
        self.scrapings.append(&mut out);
        assert(records_view(self.scrapings@) =~= before + added);
        match outcome {
            ScanOutcome::Failed(e) => Err(e),
            _ => Ok(()),
        }
    }

    /// Reads a whole log: finds its units, selects the only one (or none
    /// where there are several), reads the firmware version and the
    /// selected unit's events. A log that names no unit selects
    /// `Not defined.` and reads nothing more.
    pub fn read_and_process_lines(&mut self, lines: &Vec<String>, volts: &Vec<Option<String>>) -> (r:
        Result<usize, ScrapeError>)
        requires
            volts@.len() == lines@.len(),
            units_in(texts_view(lines@)).len() > 0 ==> !(scan_log(
                texts_view(lines@),
                opt_texts_view(volts@),
                unit_to_read(texts_view(lines@)),
            ).outcome is UnreadableTime),
        ensures
            ({
                let ls = texts_view(lines@);
                let units = units_in(ls);
                let sc = scan_log(ls, opt_texts_view(volts@), unit_to_read(ls));
                &&& texts_view(final(self).devices@) == units
                &&& if units.len() == 0 {
                    &&& final(self).selected_device@ == "Not defined."@
                    &&& final(self).device_fw@ == Seq::<char>::empty()
                    &&& final(self).scrapings == old(self).scrapings
                    &&& r == Ok::<usize, ScrapeError>(0)
                } else {
                    &&& final(self).selected_device@ == unit_to_read(ls)
                    &&& final(self).device_fw@ == match firmware_in(ls, ls.len() as int) {
                        Some(f) => f,
                        None => "Not defined."@,
                    }
                    &&& records_view(final(self).scrapings@) == records_view(old(self).scrapings@)
                        + sc.out
                    &&& match sc.outcome {
                        ScanOutcome::Failed(e) => r == Err::<usize, ScrapeError>(e),
                        _ => r == Ok::<usize, ScrapeError>(0),
                    }
                }
            }),
            final(self).file_dialog_open == old(self).file_dialog_open,
            final(self).processing_status == old(self).processing_status,
            final(self).device_id == old(self).device_id,
    {
        self.devices = find_devices(lines);
        self.selected_device = String::new();
        self.device_fw = String::new();
        if self.devices.len() == 1 {
            self.selected_device = copy_string(&self.devices[0]);
        } else {
            if self.devices.len() == 0 {
                self.selected_device = owned("Not defined.");
                return Ok(0);
            }
        }
        self.parse_firmware(lines);
        let selected = copy_string(&self.selected_device);
        match self.parse_device_data(lines, volts, selected.as_str()) {
            Ok(()) => Ok(0),
            Err(e) => Err(e),
        }
    }

    /// Reads the selected unit's events again, in place of those read
    /// before, and reports the outcome in the processing status.
    pub fn parse_selected_device(&mut self, lines: &Vec<String>, volts: &Vec<Option<String>>)
        requires
            volts@.len() == lines@.len(),
            !(scan_log(texts_view(lines@), opt_texts_view(volts@), old(self).selected_device@).outcome
                is UnreadableTime),
        ensures
            ({
                let sc = scan_log(
                    texts_view(lines@),
                    opt_texts_view(volts@),
                    old(self).selected_device@,
                );
                &&& records_view(final(self).scrapings@) == sc.out
                &&& final(self).processing_status@ == match sc.outcome {
                    ScanOutcome::Failed(e) => "Error parsing device data: "@ + error_message(e),
                    _ => "Loaded device: "@ + old(self).selected_device@,
                }
            }),
            final(self).file_dialog_open == old(self).file_dialog_open,
            final(self).devices == old(self).devices,
            final(self).selected_device == old(self).selected_device,
            final(self).device_id == old(self).device_id,
            final(self).device_fw == old(self).device_fw,
    {
        self.scrapings = Vec::new();
        let device = copy_string(&self.selected_device);
        assert(records_view(self.scrapings@) =~= Seq::<ScrapedView>::empty());
        match self.parse_device_data(lines, volts, device.as_str()) {
            Ok(()) => {
                let mut status = owned("Loaded device: ");
                push_str(&mut status, device.as_str());
                self.processing_status = status;
            },
            Err(e) => {
                let mut status = owned("Error parsing device data: ");
                push_str(&mut status, e.message().as_str());
                self.processing_status = status;
            },
        }
    }
}

impl Default for Scraper {
    /// A scraper with no log loaded, as [`Scraper::new`] makes it.
    fn default() -> (r: Scraper)
        ensures
            r.file_dialog_open == false,
            r.processing_status@ == "No file selected."@,
            r.devices@.len() == 0,
            r.selected_device@ == Seq::<char>::empty(),
            r.device_id@ == Seq::<char>::empty(),
            r.device_fw@ == Seq::<char>::empty(),
            r.scrapings@.len() == 0,
    {
        Scraper::new()
    }
}

} // verus!
