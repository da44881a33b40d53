use scraper::dataset_ts::{create_time_series_datasets, DetailReading, ScrapingReadings};
use scraper::helpers_ts::convert_to_pulse_data;
use scraper::scraper::{GpsLocation, ScrapedData, Scraper};
use scraper::time_series_plot::SinglePoint;
use scraper::time_series_plot::{TimeSeriesData, F32_HALF, F32_ONE, F32_THREE, F32_TWO, F32_ZERO};

fn rec(t: u64, trip: &str, et: &str, detail: &[(&str, &str)], speed: u32) -> ScrapedData {
    ScrapedData {
        date_time: "22/04/2025 00:00:00".to_string(),
        unix_time: t,
        on_trip: true,
        trip_num: trip.to_string(),
        event_type: et.to_string(),
        ev_detail: detail.iter().map(|(a, b)| (a.to_string(), b.to_string())).collect(),
        ev_supported: true,
        gps_rssi: 1,
        gps_speed: speed,
        gps_locn: GpsLocation { lat: "1".to_string(), lon: "2".to_string() },
    }
}

/// The `f32` readings, computed as the caller does.
fn readings(s: &Scraper) -> Vec<ScrapingReadings> {
    s.scrapings
        .iter()
        .map(|d| ScrapingReadings {
            details: d
                .ev_detail
                .iter()
                .map(|(_, v)| {
                    v.parse::<f32>()
                        .ok()
                        .map(|x| DetailReading { bits: x.to_bits(), plus_one_bits: (x + 1.0).to_bits() })
                })
                .collect(),
        })
        .collect()
}

fn points(d: &TimeSeriesData) -> Vec<(u64, u32)> {
    d.time_series_points.iter().map(|p| (p.unix_time, p.point_value)).collect()
}

fn b(x: f32) -> u32 {
    x.to_bits()
}

fn sample() -> Scraper {
    let mut s = Scraper::new();
    s.scrapings = vec![
        rec(50, "", "SWSTART", &[("Firmware", "1"), ("Battery voltage", "12.0")], 0),
        rec(100, "7", "SIGNON", &[("Operator id", "1"), ("Battery voltage", "12.5")], 0),
        rec(150, "7", "XSIDLESTART", &[("Trip id", "7"), ("Battery voltage", "?")], 0),
        rec(200, "7", "OVERSPEED", &[("Trip id", "7"), ("Duration", "30"), ("Battery voltage", "12.6")], 85),
        rec(250, "7", "XSIDLE", &[("Trip id", "7"), ("Max idle", "40"), ("Battery voltage", "12.4")], 0),
        rec(260, "7", "IMPACT", &[("Trip id", "7"), ("Severity", "C")], 10),
        rec(270, "7", "ZONECHANGE", &[("Trip id", "7"), ("Zone output", "2")], 10),
        rec(280, "7", "UNBUCKLED", &[("Trip id", "7"), ("Duration", "20"), ("Seat owner", "P")], 5),
        rec(400, "7", "TRIP", &[("Trip id", "7"), ("Battery voltage", "12.3")], 0),
        rec(500, "8", "SIGNON", &[("Operator id", "2")], 0),
    ];
    s
}

#[test]
fn plots_of_a_trip() {
    let s = sample();
    let rd = readings(&s);
    let ds = create_time_series_datasets(&s, &rd, "7");
    let names: Vec<&str> = ds.iter().map(|d| d.series_name.as_str()).collect();
    assert_eq!(names, vec!["Battery", "Speed", "EXCESS_IDLE", "IMPACT", "OVERSPEED", "UNBUCKLED", "ZONECHANGE"]);
    assert!(ds.iter().all(|d| !d.tall_chart));

    let battery = &ds[0];
    assert_eq!(battery.data_type, "Analog");
    assert_eq!(battery.units, "V");
    assert_eq!(points(battery), vec![(100, b(12.5)), (200, b(12.6)), (250, b(12.4)), (400, b(12.3))]);

    let speed = &ds[1];
    assert_eq!(speed.units, "kph");
    assert_eq!(
        points(speed),
        vec![(100, 0), (150, 0), (200, b(85.0)), (250, 0), (260, b(10.0)), (270, b(10.0)), (280, b(5.0)), (400, 0)]
    );

    let idle = &ds[2];
    assert_eq!(idle.data_type, "ImpulseDigitalCombo");
    assert_eq!(idle.levels, vec!["Start".to_string(), "Active".to_string()]);
    assert!(idle.time_series_points.is_empty());
    assert_eq!(
        idle.multi_traces[0].iter().map(|p| (p.unix_time, p.point_value)).collect::<Vec<_>>(),
        vec![(100, F32_ZERO), (210, F32_ZERO), (210, F32_ONE), (250, F32_ONE), (250, F32_ZERO), (400, F32_ZERO)]
    );
    assert_eq!(
        idle.multi_traces[1].iter().map(|p| (p.unix_time, p.point_value)).collect::<Vec<_>>(),
        vec![(150, F32_ONE)]
    );

    let impact = &ds[3];
    assert_eq!(impact.data_type, "Impulse");
    assert_eq!(impact.units, "Severity");
    assert_eq!(impact.levels.len(), 3);
    assert_eq!(points(impact), vec![(260, F32_THREE)]);

    let overspeed = &ds[4];
    assert_eq!(overspeed.data_type, "Digital");
    assert_eq!(
        points(overspeed),
        vec![(100, F32_ZERO), (170, F32_ZERO), (170, F32_ONE), (200, F32_ONE), (200, F32_ZERO), (400, F32_ZERO)]
    );

    let unbuckled = &ds[5];
    assert_eq!(unbuckled.data_type, "DualDigital");
    assert_eq!(unbuckled.levels, vec!["Crew".to_string(), "Driver".to_string()]);
    let crew: Vec<(u64, u32)> = unbuckled.multi_traces[0].iter().map(|p| (p.unix_time, p.point_value)).collect();
    let driver: Vec<(u64, u32)> = unbuckled.multi_traces[1].iter().map(|p| (p.unix_time, p.point_value)).collect();
    assert_eq!(
        crew,
        vec![(100, F32_ZERO), (260, F32_ZERO), (260, F32_HALF), (280, F32_HALF), (280, F32_ZERO), (400, F32_ZERO)]
    );
    assert_eq!(driver, vec![(100, F32_ZERO), (400, F32_ZERO)]);

    let zone = &ds[6];
    assert_eq!(zone.units, "Zone Output");
    assert_eq!(zone.levels.len(), 5);
    assert_eq!(points(zone), vec![(270, b(3.0))]);
}

#[test]
fn empty_trip_has_no_plots() {
    let s = sample();
    let rd = readings(&s);
    assert!(create_time_series_datasets(&s, &rd, "99").is_empty());
}

#[test]
fn trip_with_one_event() {
    let s = sample();
    let rd = readings(&s);
    let ds = create_time_series_datasets(&s, &rd, "8");
    let names: Vec<&str> = ds.iter().map(|d| d.series_name.as_str()).collect();
    assert_eq!(names, vec!["Speed"]);
}

#[test]
fn impact_severity_levels() {
    let mut s = Scraper::new();
    s.scrapings = vec![
        rec(10, "1", "IMPACT", &[("Severity", "-")], 0),
        rec(20, "1", "IMPACT", &[("Severity", "W")], 0),
        rec(30, "1", "IMPACT", &[("Severity", "2.5")], 0),
        rec(40, "1", "IMPACT", &[("Severity", "x")], 0),
        rec(50, "1", "IMPACT", &[("Trip id", "1")], 0),
    ];
    let rd = readings(&s);
    let ds = create_time_series_datasets(&s, &rd, "1");
    assert_eq!(ds[1].series_name, "IMPACT");
    assert_eq!(points(&ds[1]), vec![(10, F32_ONE), (20, F32_TWO), (30, b(2.5)), (40, F32_ONE)]);
}

#[test]
fn duration_kinds_plot_their_pulse_trace_once() {
    let kinds = ["ENGINETEMP", "LOWCOOLANT", "OFFSEAT", "OILPRESSURE", "OVERLOAD", "OVERSPEED", "ZONEOVERSPEED"];
    let mut s = Scraper::new();
    s.scrapings = vec![rec(100, "3", "SIGNON", &[("Operator id", "1")], 0)];
    for (k, kind) in kinds.iter().enumerate() {
        let t = 110 + 10 * k as u64;
        s.scrapings.push(rec(t, "3", kind, &[("Trip id", "3"), ("Duration", "25"), ("Battery voltage", "24.5")], 0));
        s.scrapings.push(rec(t + 5, "3", kind, &[("Trip id", "3"), ("Duration", "x")], 0));
    }
    s.scrapings.push(rec(300, "3", "TRIP", &[("Trip id", "3")], 0));
    let rd = readings(&s);
    let ds = create_time_series_datasets(&s, &rd, "3");
    for (k, kind) in kinds.iter().enumerate() {
        let t = 110 + 10 * k as u64;
        let named: Vec<&TimeSeriesData> = ds.iter().filter(|d| d.series_name == *kind).collect();
        assert_eq!(named.len(), 1);
        let d = named[0];
        assert_eq!(d.data_type, "Digital");
        assert_eq!(d.units, "Active");
        assert!(d.levels.is_empty() && d.multi_traces.is_empty());
        let ev = vec![SinglePoint { unix_time: t, point_value: b(25.0) }];
        let expected: Vec<(u64, u32)> =
            convert_to_pulse_data(&ev, 100, 300, "Digital").iter().map(|p| (p.unix_time, p.point_value)).collect();
        assert_eq!(points(d), expected);
    }
    // The first pulse reaches back before the trip's start: it starts there.
    let first: Vec<&TimeSeriesData> = ds.iter().filter(|d| d.series_name == "ENGINETEMP").collect();
    assert_eq!(
        points(first[0]),
        vec![(100, F32_ZERO), (100, F32_ONE), (110, F32_ONE), (110, F32_ZERO), (300, F32_ZERO)]
    );
    assert!(ds.iter().all(|d| d.series_name != "IMPACT" && d.series_name != "UNBUCKLED"));
}
