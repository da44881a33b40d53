use scraper::gps_plot::{
    parse_datetime, plot_point, plot_points, point_marker, speed_band, track_points, trip_time, try_plot_points, Marker,
    SatelliteTiles, SpeedBand,
};
use scraper::scraper::{GpsLocation, ScrapedData, Scraper};

fn rec(trip: &str, date_time: &str, lat: &str, lon: &str, speed: u32) -> ScrapedData {
    ScrapedData {
        date_time: date_time.to_string(),
        unix_time: 1,
        on_trip: true,
        trip_num: trip.to_string(),
        event_type: "REPORT".to_string(),
        ev_detail: Vec::new(),
        ev_supported: true,
        gps_rssi: 3,
        gps_speed: speed,
        gps_locn: GpsLocation { lat: lat.to_string(), lon: lon.to_string() },
    }
}

#[test]
fn tile_addresses() {
    let t = SatelliteTiles;
    assert_eq!(
        t.tile_url(12, 345, 678),
        "https://server.arcgisonline.com/ArcGIS/rest/services/World_Imagery/MapServer/tile/12/678/345"
    );
    assert_eq!(t.attribution_url(), "https://www.esri.com/");
    assert!(t.attribution_text().starts_with("Tiles © Esri"));
}

#[test]
fn track_leaves_out_zero_positions() {
    let mut s = Scraper::new();
    s.scrapings = vec![
        rec("7", "22/04/2025 00:16:44", "-274000000", "1530000000", 10),
        rec("7", "22/04/2025 00:20:00", "0", "1530000000", 10),
        rec("7", "22/04/2025 00:21:00", "-000", "5", 10),
        rec("8", "22/04/2025 00:22:00", "1", "5", 10),
        rec("7", "22/04/2025 01:30:05", "10", "-20", 90),
    ];
    assert_eq!(track_points(&s, "7"), vec![0, 4]);
    let pts = plot_points(&s, "7");
    assert_eq!(try_plot_points(&s, "7").map(|p| p.len()), Some(2));
    assert_eq!(pts.len(), 2);
    assert_eq!(pts[0].timestamp, 1745281004);
    assert_eq!(pts[1].lat, "10");
    assert_eq!(pts[1].lon, "-20");
    assert_eq!(pts[1].speed, 90);
    assert_eq!(trip_time(pts[0].timestamp, pts[1].timestamp), "00:16:44 to 01:30:05  (01:13:21)");
}

#[test]
fn track_with_unreadable_date() {
    let mut s = Scraper::new();
    s.scrapings = vec![rec("7", "Apr 22, 2025 00:16:44.123", "1", "1", 10)];
    assert!(try_plot_points(&s, "7").is_none());
    // An unreadable date outside the selected trip does not matter.
    s.scrapings.push(rec("8", "22/04/2025 00:20:00", "1", "1", 10));
    assert_eq!(try_plot_points(&s, "8").map(|p| p.len()), Some(1));
    assert_eq!(plot_points(&s, "8")[0].timestamp, 1745281200);
    assert_eq!(parse_datetime("Apr 22, 2025 00:16:44.123"), None);
    assert_eq!(parse_datetime("01/01/1970 00:00:10"), Some(10));
}

#[test]
fn trip_time_before_its_start() {
    assert_eq!(trip_time(3661, 0), "01:01:01 to 00:00:00  (-1:-1:-1)");
    assert_eq!(trip_time(60, 0), "00:01:00 to 00:00:00  (00:-1:00)");
    assert_eq!(trip_time(-1, 86399), "23:59:59 to 23:59:59  (24:00:00)");
}

#[test]
fn markers_and_speed_bands() {
    assert_eq!(speed_band(60), SpeedBand::Slow);
    assert_eq!(speed_band(61), SpeedBand::Moderate);
    assert_eq!(speed_band(81), SpeedBand::Fast);
    assert_eq!(speed_band(101), SpeedBand::VeryFast);
    assert_eq!(point_marker(0, 3, 200), Marker::Start);
    assert_eq!(point_marker(2, 3, 200), Marker::Finish);
    assert_eq!(point_marker(1, 3, 70), Marker::Dot(SpeedBand::Moderate));
}

#[test]
fn point_of_an_event() {
    let r = rec("7", "22/04/2025 00:16:44", "-338", "1511", 42);
    let t = parse_datetime(&r.date_time).unwrap();
    assert_eq!(t, 1745281004);
    let p = plot_point(&r, t);
    assert_eq!((p.timestamp, p.trip_num.as_str(), p.lat.as_str(), p.lon.as_str(), p.speed, p.rssi), (t, "7", "-338", "1511", 42, 3));
}
