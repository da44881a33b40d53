use scraper::event_detail::ungroup_event_data;
use scraper::numeric::IntErrorKind;
use scraper::scraper::{
    battery_readings, find_devices, find_firmware, has_unreadable_time, ScrapeError, Scraper,
};

fn event_line(time: &str, unit: &str, trip: &str, unix: &str, gps: &str, ev: &str, tail: &str) -> String {
    format!(
        "\"Apr 22, 2025 @ {}\",a,b,\"{} <== [EVENT {} {} {} {} {}]\"",
        time, unit, trip, unix, gps, ev, tail
    )
}

/// A log of one trip of unit 1234, newest record first.
fn sample_log() -> Vec<String> {
    vec![
        event_line("01:00:00.000", "1234", "7", "1745283600", "-274000000/1530000000/0/20/0", "TRIP", "7 2 3 4 5 6 extra v:124"),
        event_line("00:30:00.000", "1234", "7", "1745281800", "-274000100/1530000100/0/21/85", "OVERSPEED", "7 30 v:125"),
        event_line("00:20:00.000", "1234", "7", "1745281200", "0/0/0/22/0", "REPORT", "7 50 90 v:126"),
        event_line("00:16:44.123", "1234", "7", "1745281004", "-274000200/1530000200/0/23/0", "SIGNON", "12345 ABCD OK 26 0 1 v:127"),
        event_line("00:10:00.000", "1234", "0", "1745280600", "0/0/0/0/0", "SWSTART", "FC 1.2.3 beta v:128"),
        "header [UNIT 1234] log".to_string(),
    ]
}

/// What the caller computes from the battery captures: tenths of a volt,
/// in volts with one decimal.
fn volts_of(lines: &Vec<String>) -> Vec<Option<String>> {
    battery_readings(lines)
        .into_iter()
        .map(|c| c.and_then(|s| s.parse::<f32>().ok()).map(|v| format!("{:.1}", v / 10.0)))
        .collect()
}

fn pairs(v: &[(&str, &str)]) -> Vec<(String, String)> {
    v.iter().map(|(a, b)| (a.to_string(), b.to_string())).collect()
}

#[test]
fn devices_are_listed_once_in_order() {
    let lines = vec![
        "x [UNIT 55] y".to_string(),
        "[UNIT  12]".to_string(),
        "[UNIT 55]".to_string(),
        "no unit here".to_string(),
    ];
    assert_eq!(find_devices(&lines), vec!["55".to_string(), "12".to_string()]);
}

#[test]
fn unit_tags_use_unicode_digits_and_spaces() {
    // `\d` and `\s` are Unicode classes.
    let lines = vec!["[UNIT\u{2003}\u{0663}\u{0664}]".to_string()];
    assert_eq!(find_devices(&lines), vec!["\u{0663}\u{0664}".to_string()]);
}

#[test]
fn firmware_of_the_log() {
    let lines = sample_log();
    assert_eq!(find_firmware(&lines), Some("1.2.3 beta".to_string()));
    assert_eq!(find_firmware(&vec!["nothing".to_string()]), None);
}

#[test]
fn read_whole_log() {
    let lines = sample_log();
    let volts = volts_of(&lines);
    let mut s = Scraper::new();
    assert_eq!(s.read_and_process_lines(&lines, &volts), Ok(0));
    assert_eq!(s.devices, vec!["1234".to_string()]);
    assert_eq!(s.selected_device, "1234");
    assert_eq!(s.device_fw, "1.2.3 beta");
    let kinds: Vec<&str> = s.scrapings.iter().map(|d| d.event_type.as_str()).collect();
    assert_eq!(kinds, vec!["SWSTART", "SIGNON", "REPORT", "OVERSPEED", "TRIP"]);
    let trips: Vec<&str> = s.scrapings.iter().map(|d| d.trip_num.as_str()).collect();
    assert_eq!(trips, vec!["", "7", "7", "7", "7"]);
    let on: Vec<bool> = s.scrapings.iter().map(|d| d.on_trip).collect();
    assert_eq!(on, vec![false, true, true, true, true]);

    let signon = &s.scrapings[1];
    assert_eq!(signon.date_time, "22/04/2025 00:16:44");
    assert_eq!(signon.unix_time, 1745281004);
    assert_eq!(signon.gps_locn.lat, "-274000200");
    assert_eq!(signon.gps_locn.lon, "1530000200");
    assert_eq!(signon.gps_rssi, 23);
    assert_eq!(signon.gps_speed, 0);
    assert!(signon.ev_supported);
    assert_eq!(
        signon.ev_detail,
        pairs(&[
            ("Operator id", "12345"),
            ("Card id", "ABCD"),
            ("Result", "OK"),
            ("Bits read", "26"),
            ("Keyboard", "0"),
            ("Card reader", "1"),
            ("Battery voltage", "12.7"),
        ])
    );
    let trip = &s.scrapings[4];
    assert_eq!(
        trip.ev_detail,
        pairs(&[
            ("Trip id", "7"),
            ("Time fwd", "2"),
            ("Time rev", "3"),
            ("Time idle", "4"),
            ("Max idle", "5"),
            ("Time on seat", "6"),
            ("Battery voltage", "12.4"),
        ])
    );
    assert_eq!(s.scrapings[0].ev_detail, pairs(&[("Firmware", "1.2.3 beta"), ("Battery voltage", "12.8")]));
}

#[test]
fn log_without_units_reads_nothing() {
    let lines = vec!["nothing".to_string()];
    let volts = volts_of(&lines);
    let mut s = Scraper::new();
    assert_eq!(s.read_and_process_lines(&lines, &volts), Ok(0));
    assert_eq!(s.selected_device, "Not defined.");
    assert!(s.scrapings.is_empty());
}

#[test]
fn events_of_other_units_are_skipped() {
    let mut lines = sample_log();
    lines.insert(0, event_line("02:00:00.000", "999", "1", "1745287200", "0/0/0/1/1", "SIGNON", "1 A B 2 3 4 v:1"));
    let volts = volts_of(&lines);
    let mut s = Scraper::new();
    s.selected_device = "1234".to_string();
    s.parse_selected_device(&lines, &volts);
    assert_eq!(s.processing_status, "Loaded device: 1234");
    assert_eq!(s.scrapings.len(), 5);
}

#[test]
fn unreadable_date_keeps_the_record_text() {
    let line = "\"Foo 22, 2025 @ 00:00:01.000\",a,b,\"1234 <== [EVENT 1 100 0/0/0/1/2 CONFIG x]\"".to_string();
    let lines = vec![line];
    let volts = volts_of(&lines);
    let mut s = Scraper::new();
    assert_eq!(s.parse_device_data(&lines, &volts, "1234"), Ok(()));
    assert_eq!(s.scrapings[0].date_time, "Foo 22, 2025 00:00:01.000");
    assert!(s.scrapings[0].ev_detail.is_empty());
    assert!(s.scrapings[0].ev_supported);
}

#[test]
fn coordinate_that_is_not_a_number_fails() {
    let line = event_line("00:00:01.000", "1234", "1", "100", "\u{0663}/0/0/1/2", "CONFIG", "x");
    let lines = vec![line];
    let volts = volts_of(&lines);
    let mut s = Scraper::new();
    let r = s.parse_device_data(&lines, &volts, "1234");
    assert_eq!(r, Err(ScrapeError::InvalidFloat));
    assert_eq!(ScrapeError::InvalidFloat.message(), "invalid float literal");
}

#[test]
fn signal_strength_too_large_fails() {
    let line = event_line("00:00:01.000", "1234", "1", "100", "0/0/0/99999999999/2", "CONFIG", "x");
    let lines = vec![line];
    let volts = volts_of(&lines);
    let mut s = Scraper::new();
    let r = s.parse_device_data(&lines, &volts, "1234");
    assert_eq!(r, Err(ScrapeError::InvalidInt(IntErrorKind::PosOverflow)));
    assert_eq!(
        ScrapeError::InvalidInt(IntErrorKind::PosOverflow).message(),
        "number too large to fit in target type"
    );
}

#[test]
fn speed_with_other_digits_fails() {
    let line = event_line("00:00:01.000", "1234", "1", "100", "0/0/0/1/\u{0663}", "CONFIG", "x");
    let lines = vec![line];
    let volts = volts_of(&lines);
    let mut s = Scraper::new();
    s.selected_device = "1234".to_string();
    s.parse_selected_device(&lines, &volts);
    assert_eq!(s.processing_status, "Error parsing device data: invalid digit found in string");
    assert_eq!(
        ScrapeError::InvalidInt(IntErrorKind::Empty).message(),
        "cannot parse integer from empty string"
    );
}

#[test]
fn events_after_a_failure_are_not_read() {
    let mut lines = sample_log();
    // Oldest record is bad: nothing after it is read.
    lines.push(event_line("00:00:01.000", "1234", "1", "100", "0/0/0/99999999999/2", "CONFIG", "x"));
    let volts = volts_of(&lines);
    let mut s = Scraper::new();
    let r = s.read_and_process_lines(&lines, &volts);
    assert_eq!(r, Err(ScrapeError::InvalidInt(IntErrorKind::PosOverflow)));
    assert!(s.scrapings.is_empty());
}

#[test]
fn unreadable_unix_time_is_reported() {
    let lines = vec![event_line("00:00:01.000", "1234", "1", "\u{0663}", "0/0/0/1/2", "CONFIG", "x")];
    let volts = volts_of(&lines);
    assert!(has_unreadable_time(&lines, &volts, "1234"));
    assert!(!has_unreadable_time(&sample_log(), &volts_of(&sample_log()), "1234"));
}

#[test]
fn trip_numbers_carry_from_signon_to_trip() {
    let lines = vec![
        event_line("00:05:00.000", "1", "9", "500", "0/0/0/1/2", "REPORT", "9 1 1 v:1"),
        event_line("00:04:00.000", "1", "8", "400", "0/0/0/1/2", "TRIP", "8 1 1 1 1 1 v:1"),
        event_line("00:03:00.000", "1", "8", "300", "0/0/0/1/2", "OVERSPEED", "8 5 v:1"),
        event_line("00:02:00.000", "1", "8", "200", "0/0/0/1/2", "SIGNON", "1 A B 2 3 4 v:1"),
        "[UNIT 1]".to_string(),
    ];
    let volts = volts_of(&lines);
    let mut s = Scraper::new();
    assert_eq!(s.read_and_process_lines(&lines, &volts), Ok(0));
    let trips: Vec<&str> = s.scrapings.iter().map(|d| d.trip_num.as_str()).collect();
    assert_eq!(trips, vec!["8", "8", "8", ""]);
}

#[test]
fn decode_impact_tail() {
    let mut on_trip = true;
    let mut supported = true;
    let d = ungroup_event_data("IMPACT".to_string(), "7 1 2 3 4 5 6 W v:120", &mut on_trip, &mut supported);
    assert!(on_trip && supported);
    assert_eq!(d.battery, Some("120".to_string()));
    let p = d.into_pairs(Some("12.0".to_string()));
    assert_eq!(
        p,
        pairs(&[
            ("Trip id", "7"),
            ("Forward g", "1"),
            ("Reverse g", "2"),
            ("Left g", "3"),
            ("Right g", "4"),
            ("Max G1", "5"),
            ("Max G2", "6"),
            ("Severity", "W"),
            ("Battery voltage", "12.0"),
        ])
    );
}

#[test]
fn decode_duration_tails_carry_the_battery_reading() {
    for kind in ["OVERLOAD", "LOWCOOLANT", "OFFSEAT", "OILPRESSURE"] {
        let mut on_trip = true;
        let mut supported = true;
        let d = ungroup_event_data(kind.to_string(), "7 60 v:245", &mut on_trip, &mut supported);
        assert!(on_trip && supported);
        assert_eq!(d.battery, Some("245".to_string()));
        assert_eq!(
            d.into_pairs(Some("24.5".to_string())),
            pairs(&[("Trip id", "7"), ("Duration", "60"), ("Battery voltage", "24.5")])
        );
    }
}

#[test]
fn decode_unbuckled_and_idle_tails() {
    let mut on_trip = true;
    let mut supported = true;
    let d = ungroup_event_data("UNBUCKLED".to_string(), "7 12 D v:121", &mut on_trip, &mut supported);
    assert_eq!(
        d.into_pairs(None),
        pairs(&[("Trip id", "7"), ("Duration", "12"), ("Seat owner", "D")])
    );
    let d = ungroup_event_data("XSIDLE".to_string(), "7 300 v:junk", &mut on_trip, &mut supported);
    assert_eq!(
        d.into_pairs(None),
        pairs(&[("Trip id", "7"), ("Max idle", "300"), ("Battery voltage", "?")])
    );
    assert!(on_trip && supported);
}

#[test]
fn decode_marks_kinds() {
    let mut on_trip = true;
    let mut supported = true;
    let d = ungroup_event_data("HARDWARE".to_string(), "fault 3 v:120", &mut on_trip, &mut supported);
    assert!(!on_trip);
    assert_eq!(d.pairs, pairs(&[("Equipment fault", "fault 3")]));
    let mut on_trip = true;
    let d = ungroup_event_data("NEWKIND".to_string(), "1 2 v:3", &mut on_trip, &mut supported);
    assert!(!supported && on_trip);
    assert!(d.pairs.is_empty() && d.battery.is_none());
    let mut supported = true;
    let d = ungroup_event_data("CONFIG".to_string(), "1 2 v:3", &mut on_trip, &mut supported);
    assert!(supported && d.pairs.is_empty());
    // A tail without its kind's shape yields no fields.
    let d = ungroup_event_data("OVERSPEED".to_string(), "x y", &mut on_trip, &mut supported);
    assert!(d.pairs.is_empty() && supported);
}

#[test]
fn decode_checklist_and_zone_transition() {
    let mut on_trip = true;
    let mut supported = true;
    let d = ungroup_event_data("CHECKLIST".to_string(), "7 CANCEL 2 30 4 pre-trip v:125", &mut on_trip, &mut supported);
    assert_eq!(
        d.pairs,
        pairs(&[
            ("Trip id", "7"),
            ("Result", "CANCEL"),
            ("Failed questions", "2"),
            ("Checklist duration", "30"),
            ("Checklist version", "4"),
            ("Checklist type", "pre-trip"),
        ])
    );
    let d = ungroup_event_data("ZONETRANSITION".to_string(), "7 1 2 3 EXIT v:125", &mut on_trip, &mut supported);
    assert_eq!(
        d.pairs,
        pairs(&[("Trip id", "7"), ("From zone", "1"), ("To zone", "2"), ("Zone output", "3"), ("Transition", "EXIT")])
    );
}

#[test]
fn new_and_reinitialised_state() {
    let mut s = Scraper::new();
    assert_eq!(s.get_processing_status(), "No file selected.");
    s.devices.push("1".to_string());
    s.reinitialize_data();
    assert_eq!(s.get_processing_status(), "Loading new file...");
    assert!(s.devices.is_empty() && s.scrapings.is_empty());
    let d = Scraper::default();
    assert_eq!(d.processing_status, "No file selected.");
}

#[test]
fn event_kinds_with_other_letters() {
    // `\w` is a Unicode class: the kind is read, and it is not a known one.
    let lines = vec![event_line("00:00:01.000", "1234", "1", "100", "0/0/0/1/2", "ÜBER", "x v:1")];
    let volts = volts_of(&lines);
    let mut s = Scraper::new();
    assert_eq!(s.parse_device_data(&lines, &volts, "1234"), Ok(()));
    assert_eq!(s.scrapings[0].event_type, "ÜBER");
    assert!(!s.scrapings[0].ev_supported);
    assert!(s.scrapings[0].ev_detail.is_empty());
}

#[test]
fn firmware_record_with_other_letters() {
    // `[^\s]` accepts any character that is not Unicode white space.
    let lines = vec![
        "\"Apr 22, 2025 @ 00:10:00.000\",a,b,\"1234 <== [EVENT 0 1745280600 é/ü SWSTART FC 2.0 v:128]\"".to_string(),
    ];
    assert_eq!(find_firmware(&lines), Some("2.0".to_string()));
    let spaced = vec![
        "\"Apr 22, 2025 @ 00:10:00.000\",a,b,\"1234 <== [EVENT 0 1745280600 é\u{2003}ü SWSTART FC 2.0 v:128]\"".to_string(),
    ];
    assert_eq!(find_firmware(&spaced), None);
}
