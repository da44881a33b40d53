use regex::Regex;

use scraper::event_detail::ungroup_event_data;

/// How the decoder reads one kind of event: the tail's pattern, the labelled
/// groups, the group of the battery reading, whether an unreadable reading
/// shows as `?`, and whether the kind marks its record as outside a trip.
struct Kind {
    name: &'static str,
    pattern: Option<&'static str>,
    fields: &'static [(&'static str, usize)],
    battery: Option<usize>,
    unknown_mark: bool,
    leaves_trip: bool,
}

const KINDS: &[Kind] = &[
    Kind { name: "SIGNON", pattern: Some(r#"([-*+0-9]+) ([0-9a-fA-F]+) (.+?) ([0-9]+) ([0-9a-fA-F]+) ([0-9]+) v:(.+?)$"#), fields: &[("Operator id", 1), ("Card id", 2), ("Result", 3), ("Bits read", 4), ("Keyboard", 5), ("Card reader", 6)], battery: Some(7), unknown_mark: false, leaves_trip: false },
    Kind { name: "CHECKLIST", pattern: Some(r#"([0-9]+) (OK|CANCEL|NOFILE) ([0-9]+) ([0-9]+) ([0-9]+) ([\-a-zA-Z]+) v:(.+?)$"#), fields: &[("Trip id", 1), ("Result", 2), ("Failed questions", 3), ("Checklist duration", 4), ("Checklist version", 5), ("Checklist type", 6)], battery: Some(7), unknown_mark: false, leaves_trip: false },
    Kind { name: "CLFAIL", pattern: Some(r#"([0-9]+) ([0-9]+) v:(.+?)$"#), fields: &[("Trip id", 1), ("Failded question", 2)], battery: Some(3), unknown_mark: false, leaves_trip: false },
    Kind { name: "CONFIG", pattern: None, fields: &[], battery: None, unknown_mark: false, leaves_trip: false },
    Kind { name: "CRITICALOUTPUTSET", pattern: Some(r#"([0-9]+) ([0-9]+) v:(.+?)$"#), fields: &[("Trip id", 1), ("Speed", 2)], battery: Some(3), unknown_mark: false, leaves_trip: false },
    Kind { name: "DEBUG", pattern: Some(r#"(.+)$"#), fields: &[("Debug error", 1)], battery: None, unknown_mark: false, leaves_trip: false },
    Kind { name: "ENGINEOVERSPEED", pattern: Some(r#"([0-9]+) ([0-9]+) ([0-9]+) v:(.+?)$"#), fields: &[("Trip id", 1), ("Duration", 2), ("Max RPM", 3)], battery: Some(4), unknown_mark: false, leaves_trip: false },
    Kind { name: "ENGINETEMP", pattern: Some(r#"([0-9]+) ([0-9]+)(.*) v:(.+?)$"#), fields: &[("Trip id", 1), ("Duration", 2)], battery: Some(4), unknown_mark: false, leaves_trip: false },
    Kind { name: "HARDWARE", pattern: Some(r#"(.*) v:(.+?)$"#), fields: &[("Equipment fault", 1)], battery: Some(2), unknown_mark: false, leaves_trip: true },
    Kind { name: "IMPACT", pattern: Some(r#"([0-9]+) ([0-9]+) ([0-9]+) ([0-9]+) ([0-9]+) ([0-9]+) ([0-9]+) ([\-a-zA-Z]+) v:(.+?)$"#), fields: &[("Trip id", 1), ("Forward g", 2), ("Reverse g", 3), ("Left g", 4), ("Right g", 5), ("Max G1", 6), ("Max G2", 7), ("Severity", 8)], battery: Some(9), unknown_mark: false, leaves_trip: false },
    Kind { name: "INPUT", pattern: Some(r#"([0-9]+) ([0-9]+) ([0-9]+) v:(.+?)$"#), fields: &[("Input", 1), ("State", 2), ("Duration", 3)], battery: Some(4), unknown_mark: false, leaves_trip: false },
    Kind { name: "LOWCOOLANT", pattern: Some(r#"([0-9]+) ([0-9]+)(.*) v:(.+?)$"#), fields: &[("Trip id", 1), ("Duration", 2)], battery: Some(4), unknown_mark: false, leaves_trip: false },
    Kind { name: "OFFSEAT", pattern: Some(r#"([0-9]+) ([0-9]+)(.*) v:(.+?)$"#), fields: &[("Trip id", 1), ("Duration", 2)], battery: Some(4), unknown_mark: false, leaves_trip: false },
    Kind { name: "OILPRESSURE", pattern: Some(r#"([0-9]+) ([0-9]+)(.*) v:(.+?)$"#), fields: &[("Trip id", 1), ("Duration", 2)], battery: Some(4), unknown_mark: false, leaves_trip: false },
    Kind { name: "OOS PM", pattern: Some(r#" v:(.+?)$"#), fields: &[], battery: Some(1), unknown_mark: false, leaves_trip: false },
    Kind { name: "OVERLOAD", pattern: Some(r#"([0-9]+) ([0-9]+)(.*) v:(.+?)$"#), fields: &[("Trip id", 1), ("Duration", 2)], battery: Some(4), unknown_mark: false, leaves_trip: false },
    Kind { name: "OVERSPEED", pattern: Some(r#"([0-9]+) ([0-9]+) v:(.+?)$"#), fields: &[("Trip id", 1), ("Duration", 2)], battery: Some(3), unknown_mark: false, leaves_trip: false },
    Kind { name: "POWERDOWN", pattern: Some(r#"v:(.+?)$"#), fields: &[], battery: Some(1), unknown_mark: false, leaves_trip: false },
    Kind { name: "REPORT", pattern: Some(r#"(\*|[0-9]+) ([0-9]+) ([0-9]+) v:(.+?)$"#), fields: &[("Trip id", 1), ("Speed", 2), ("Direction", 3)], battery: Some(4), unknown_mark: false, leaves_trip: false },
    Kind { name: "SERVICE", pattern: Some(r#" v:(.+?)$"#), fields: &[], battery: Some(1), unknown_mark: false, leaves_trip: false },
    Kind { name: "SWSTART", pattern: Some(r#"([.0-9]+ .*) v:(.+?)$"#), fields: &[("Firmware", 1)], battery: Some(2), unknown_mark: false, leaves_trip: true },
    Kind { name: "UNBUCKLED", pattern: Some(r#"([0-9]+) ([0-9]+) ([DP]) v:(.+?)$"#), fields: &[("Trip id", 1), ("Duration", 2), ("Seat owner", 3)], battery: Some(4), unknown_mark: false, leaves_trip: false },
    Kind { name: "XSIDLE", pattern: Some(r#"([0-9]+) ([0-9]+) v:(.+?)$"#), fields: &[("Trip id", 1), ("Max idle", 2)], battery: Some(3), unknown_mark: true, leaves_trip: false },
    Kind { name: "XSIDLESTART", pattern: Some(r#"([0-9]+) v:(.+?)$"#), fields: &[("Trip id", 1)], battery: Some(2), unknown_mark: true, leaves_trip: false },
    Kind { name: "ZONE_OK", pattern: Some(r#"([0-9]+) ([0-9]+) (.*) v:(.+?)$"#), fields: &[("Zones loaded", 1), ("Max zones", 2), ("GPS firmware version", 3)], battery: Some(4), unknown_mark: false, leaves_trip: true },
    Kind { name: "ZONECHANGE", pattern: Some(r#"([0-9]+) ([0-9]+) ([0-9]+) ([0-9]+) v:(.+?)$"#), fields: &[("Trip id", 1), ("From zone", 2), ("To zone", 3), ("Zone output", 4)], battery: Some(5), unknown_mark: false, leaves_trip: false },
    Kind { name: "ZONEOVERSPEED", pattern: Some(r#"([0-9]+) ([0-9]+) ([0-9]+) ([0-9]+) v:(.+?)$"#), fields: &[("Trip id", 1), ("Duration", 2), ("Maximum speed", 3), ("Zone output", 4)], battery: Some(5), unknown_mark: false, leaves_trip: false },
    Kind { name: "ZONETRANSITION", pattern: Some(r#"([0-9]+) ([0-9]+) ([0-9]+) ([0-9]+) (ENTRY|EXIT) v:(.+?)$"#), fields: &[("Trip id", 1), ("From zone", 2), ("To zone", 3), ("Zone output", 4), ("Transition", 5)], battery: Some(6), unknown_mark: false, leaves_trip: false },
    Kind { name: "TRIP", pattern: Some(r#"([0-9]+) ([0-9]+) ([0-9]+) ([0-9]+) ([0-9]+) ([0-9]+)(.*) v:(.+?)$"#), fields: &[("Trip id", 1), ("Time fwd", 2), ("Time rev", 3), ("Time idle", 4), ("Max idle", 5), ("Time on seat", 6)], battery: Some(8), unknown_mark: false, leaves_trip: false },
];

/// The battery reading in volts with one decimal.
fn volts(tenths: &str) -> Option<String> {
    tenths.parse::<f32>().ok().map(|v| format!("{:.1}", v / 10.0))
}

/// The fields, the trip flag and the supported flag that the regex crate's
/// reading of the tail gives.
fn reference(kind: &str, compiled: &[Option<Regex>], tail: &str) -> (Vec<(String, String)>, bool, bool) {
    let mut result = Vec::new();
    let mut on_trip = true;
    let Some(i) = KINDS.iter().position(|k| k.name == kind) else {
        return (result, on_trip, false);
    };
    let k = &KINDS[i];
    let Some(re) = &compiled[i] else {
        return (result, on_trip, true);
    };
    if let Some(c) = re.captures(tail) {
        for (label, g) in k.fields {
            if let Some(m) = c.get(*g) {
                result.push((label.to_string(), m.as_str().to_string()));
            }
        }
        if let Some(g) = k.battery {
            if let Some(m) = c.get(g) {
                match volts(m.as_str()) {
                    Some(v) => result.push(("Battery voltage".to_string(), v)),
                    None => {
                        if k.unknown_mark {
                            result.push(("Battery voltage".to_string(), "?".to_string()));
                        }
                    }
                }
            }
        }
        if k.leaves_trip {
            on_trip = false;
        }
    }
    (result, on_trip, true)
}

/// What the library gives for the same tail.
fn library(kind: &str, tail: &str) -> (Vec<(String, String)>, bool, bool) {
    let mut on_trip = true;
    let mut supported = true;
    let d = ungroup_event_data(kind.to_string(), tail, &mut on_trip, &mut supported);
    let v = d.battery.as_deref().and_then(volts);
    (d.into_pairs(v), on_trip, supported)
}

/// A small deterministic generator of texts.
struct Texts {
    state: u64,
}

impl Texts {
    fn next(&mut self) -> u64 {
        self.state = self.state.wrapping_mul(6364136223846793005).wrapping_add(1442695040888963407);
        self.state >> 33
    }

    fn text(&mut self, alphabet: &[char], max_len: u64) -> String {
        let n = self.next() % (max_len + 1);
        (0..n).map(|_| alphabet[(self.next() % alphabet.len() as u64) as usize]).collect()
    }
}

fn check_all(tails: &[String]) {
    let compiled: Vec<Option<Regex>> = KINDS.iter().map(|k| k.pattern.map(|p| Regex::new(p).unwrap())).collect();
    let mut kinds: Vec<&str> = KINDS.iter().map(|k| k.name).collect();
    kinds.push("UNKNOWNKIND");
    for kind in kinds {
        for tail in tails {
            assert_eq!(library(kind, tail), reference(kind, &compiled, tail), "kind {:?}, tail {:?}", kind, tail);
        }
    }
}

#[test]
fn decoder_agrees_with_regex_on_sample_tails() {
    let tails: Vec<String> = [
        "", "v:", " v:", " v:1", "v:1", "1 v:2", "1 2 v:3", "12 34 v:5.6", "x 1 2 v:3",
        "1 2 3 v:4", "1 2 3 4 v:5", "1 2 3 4 5 v:6", "1 2 3 4 5 6 v:7", "1 2 3 4 5 6 7 v:8",
        "1 2 3 4 5 6 7 W v:120", "1 2 3 4 5 6 7 - v:120", "7 2 3 4 5 6 extra v:124",
        "12345 ABCD OK 26 0 1 v:127", "12345 ABCD OK OK 26 0 1 v:127", "+1 f a b 2 3 4 v:1",
        "7 CANCEL 2 30 4 pre-trip v:125", "7 NOFILE 2 30 4 x v:1 v:2", "7 1 2 3 EXIT v:125",
        "7 1 2 3 ENTRY v:", "7 12 D v:121", "7 12 P v:abc", "7 12 X v:1", "FC 1.2.3 beta v:128",
        "1.2 x v:3 v:4", "* 50 90 v:126", "** 50 90 v:126", "1 2 3 4 v:5 v:6", "3 16 1.0.7 v:120",
        "1 2v:3", "1  2 v:3", "1 2 v:3\n", "a\nb v:1", "fault 3 v:120", "\u{0663} 2 v:3",
        "1 2 v:\u{0663}", "1 2 v:1e1", "1 2 v:-5", "1 2 v:+5", "1 2 v:inf", "v:v:v:",
    ]
    .iter()
    .map(|s| s.to_string())
    .collect();
    check_all(&tails);
}

#[test]
fn decoder_agrees_with_regex_on_generated_tails() {
    let alphabet = [
        '0', '1', '9', ' ', ' ', ' ', 'v', ':', '.', '-', '*', '+', 'A', 'f', 'D', 'P', 'O', 'K', 'E',
        'X', 'I', 'T', 'x', '\n', '\u{e9}', '\u{0663}',
    ];
    let mut g = Texts { state: 7 };
    let tails: Vec<String> = (0..400).map(|_| g.text(&alphabet, 16)).collect();
    check_all(&tails);
}

#[test]
fn decoder_agrees_with_regex_on_near_miss_tails() {
    // Start from well-formed tails and change one character.
    let bases = [
        "12345 ABCD OK 26 0 1 v:127", "7 CANCEL 2 30 4 pre-trip v:125", "1 2 3 4 5 6 7 W v:120",
        "7 1 2 3 EXIT v:125", "7 12 D v:121", "* 50 90 v:126", "FC 1.2.3 beta v:128",
    ];
    let replacements = [' ', ':', 'x', '\n'];
    let mut tails = Vec::new();
    for b in bases {
        let chars: Vec<char> = b.chars().collect();
        for i in 0..chars.len() {
            for r in replacements {
                let mut c = chars.clone();
                c[i] = r;
                tails.push(c.into_iter().collect::<String>());
            }
            let mut c = chars.clone();
            c.remove(i);
            tails.push(c.into_iter().collect::<String>());
        }
    }
    check_all(&tails);
}

/// One event as the reference reading gives it.
#[derive(Debug, PartialEq)]
struct Rec {
    date_time: String,
    unix_time: u64,
    on_trip: bool,
    trip_num: String,
    event_type: String,
    ev_detail: Vec<(String, String)>,
    ev_supported: bool,
    gps_rssi: u32,
    gps_speed: u32,
    lat: String,
    lon: String,
}

/// The regex crate's reading of the events of `device`, oldest record
/// first, up to the first record whose numbers do not read.
fn reference_scan(lines: &[String], device: &str, compiled: &[Option<Regex>]) -> (Vec<Rec>, Option<String>) {
    let ev = Regex::new(
        r#"^"([^@]+) @ ([^"]+)",[^,]+,[^,]+,"([^<]+) <== \[EVENT (\d+) (\d+) (-?\d+)/(-?\d+)/(\d+)/(-?\d+)/(\d+) (\w+) ([^\]]+)\]"$"#,
    )
    .unwrap();
    let mut out = Vec::new();
    let mut trip = String::new();
    for line in lines.iter().rev() {
        let Some(c) = ev.captures(line) else { continue };
        if &c[3] != device {
            continue;
        }
        let input = format!("{} {}", &c[1], &c[2]);
        let date_time = match chrono::NaiveDateTime::parse_from_str(&input, "%b %d, %Y %H:%M:%S%.f") {
            Ok(dt) => format!("{} {}", dt.format("%d/%m/%Y"), dt.format("%H:%M:%S")),
            Err(_) => input.clone(),
        };
        let (pairs, on_trip, supported) = reference(&c[11], compiled, &c[12]);
        if c[6].parse::<f64>().is_err() || c[7].parse::<f64>().is_err() {
            return (out, Some("invalid float literal".to_string()));
        }
        let rssi = match c[9].parse::<u32>() {
            Ok(v) => v,
            Err(e) => return (out, Some(e.to_string())),
        };
        let speed = match c[10].parse::<u32>() {
            Ok(v) => v,
            Err(e) => return (out, Some(e.to_string())),
        };
        if &c[11] == "SIGNON" {
            trip = c[4].to_string();
        }
        out.push(Rec {
            date_time,
            unix_time: c[5].parse().unwrap(),
            on_trip,
            trip_num: trip.clone(),
            event_type: c[11].to_string(),
            ev_detail: pairs,
            ev_supported: supported,
            gps_rssi: rssi,
            gps_speed: speed,
            lat: c[6].to_string(),
            lon: c[7].to_string(),
        });
        if &c[11] == "TRIP" {
            trip.clear();
        }
    }
    (out, None)
}

/// The library's reading of the same log.
fn library_scan(lines: &[String], device: &str) -> (Vec<Rec>, Option<String>) {
    let lines = lines.to_vec();
    let volts: Vec<Option<String>> = scraper::scraper::battery_readings(&lines)
        .into_iter()
        .map(|c| c.and_then(|s| volts(&s)))
        .collect();
    let mut s = scraper::scraper::Scraper::new();
    let r = s.parse_device_data(&lines, &volts, device);
    let out = s
        .scrapings
        .iter()
        .map(|d| Rec {
            date_time: d.date_time.clone(),
            unix_time: d.unix_time,
            on_trip: d.on_trip,
            trip_num: d.trip_num.clone(),
            event_type: d.event_type.clone(),
            ev_detail: d.ev_detail.clone(),
            ev_supported: d.ev_supported,
            gps_rssi: d.gps_rssi,
            gps_speed: d.gps_speed,
            lat: d.gps_locn.lat.clone(),
            lon: d.gps_locn.lon.clone(),
        })
        .collect();
    (out, r.err().map(|e| e.message()))
}

#[test]
fn scanner_agrees_with_regex_on_generated_logs() {
    let compiled: Vec<Option<Regex>> = KINDS.iter().map(|k| k.pattern.map(|p| Regex::new(p).unwrap())).collect();
    let dates = ["Apr 22, 2025 @ 00:16:44.123", "Dec 31, 1999 @ 23:59:59", "Foo 1, 2020 @ 1:2:3", "Apr 22, 2025 @ 25:00:00"];
    let units = ["1234", "99", "12 34"];
    let gps = [
        "-274000000/1530000000/0/20/0", "0/0/0/0/0", "5/-6/7/8/9", "1/2/3/99999999999/4", "1/2/3/4/5000000000",
        "\u{0663}/2/3/4/5", "1/2/3/\u{0663}/5", "00/-0/0/007/08",
    ];
    let kinds = [
        "SIGNON", "TRIP", "OVERSPEED", "XSIDLE", "XSIDLESTART", "SWSTART", "HARDWARE", "ZONE_OK",
        "IMPACT", "UNBUCKLED", "CONFIG", "REPORT", "LOWCOOLANT", "NOPE",
    ];
    let tails = [
        "12345 ABCD OK 26 0 1 v:127", "7 2 3 4 5 6 extra v:124", "7 30 v:125", "7 300 v:junk", "7 v:1",
        "FC 1.2.3 beta v:128", "fault 3 v:120", "3 16 1.0.7 v:120", "1 2 3 4 5 6 7 W v:120",
        "7 12 P v:121", "x", "* 50 90 v:126", "7 40 more v:1",
    ];
    let mut g = Texts { state: 11 };
    for round in 0..60 {
        let n = 1 + (g.next() % 8) as usize;
        let mut lines = Vec::new();
        for _ in 0..n {
            let pick = |g: &mut Texts, v: &[&str]| v[(g.next() % v.len() as u64) as usize].to_string();
            let date = pick(&mut g, &dates);
            let unit = pick(&mut g, &units);
            let gp = pick(&mut g, &gps);
            let kind = pick(&mut g, &kinds);
            let tail = pick(&mut g, &tails);
            let trip = (g.next() % 5).to_string();
            let time = 1745280000 + g.next() % 10000;
            lines.push(format!(
                "\"{}\",a,b,\"{} <== [EVENT {} {} {} {} {}]\"",
                date, unit, trip, time, gp, kind, tail
            ));
            if g.next() % 4 == 0 {
                lines.push(format!("header [UNIT {}]", unit));
            }
        }
        for device in units {
            let expected = reference_scan(&lines, device, &compiled);
            let got = library_scan(&lines, device);
            assert_eq!(got, expected, "round {}, device {:?}, lines {:#?}", round, device, lines);
        }
    }
}

#[test]
fn units_and_firmware_agree_with_regex() {
    let sn = Regex::new(r"\[UNIT\s+(\d+)\]").unwrap();
    let fw = Regex::new(
        r#"^"([^@]+) @ ([^"]+)",[^,]+,[^,]+,"[^<]+ <== \[EVENT (\d+) (\d+) [^\s]+ (SWSTART) FC ([^v]+) v:\d+\]"$"#,
    )
    .unwrap();
    let pieces = [
        "[UNIT 12]", "[UNIT  7]", "[UNIT\t3]", "[UNIT12]", "[UNIT 1 2]", "[UNIT \u{0663}]", "x[UNIT 12]y[UNIT 5]",
        "[UNIT\u{2003}8]", "[UNIT ]", "UNIT 4]", "\"Apr 22, 2025 @ 00:10:00.000\",a,b,\"1 <== [EVENT 0 5 0/0 SWSTART FC 1.2 v:1]\"",
        "\"Apr 22, 2025 @ 00:10:00.000\",a,b,\"1 <== [EVENT 0 5 0/0 SWSTART FC v2 v:1]\"",
        "\"A @ B\",a,b,\"1 <== [EVENT 0 5 x SWSTART FC 3.0 rc v:12]\"", " ",
    ];
    let mut g = Texts { state: 3 };
    for _ in 0..300 {
        let n = (g.next() % 5) as usize;
        let lines: Vec<String> = (0..n)
            .map(|_| {
                let a = pieces[(g.next() % pieces.len() as u64) as usize];
                let b = pieces[(g.next() % pieces.len() as u64) as usize];
                if g.next() % 2 == 0 { a.to_string() } else { format!("{}{}", a, b) }
            })
            .collect();
        let mut units: Vec<String> = Vec::new();
        for line in &lines {
            if let Some(c) = sn.captures(line) {
                let u = c[1].to_string();
                if !units.contains(&u) {
                    units.push(u);
                }
            }
        }
        assert_eq!(scraper::scraper::find_devices(&lines), units, "lines {:?}", lines);
        let firmware = lines.iter().rev().find_map(|l| fw.captures(l).map(|c| c[6].to_string()));
        assert_eq!(scraper::scraper::find_firmware(&lines), firmware, "lines {:?}", lines);
    }
}
