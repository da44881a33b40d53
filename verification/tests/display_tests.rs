use scraper::colours::{
    event_colour, plot_area_colour, ts_cursor_label_colour, ts_digital_fill_colour, Colour,
};
use scraper::log_display::{
    detail_rows, display_entries, event_header, event_id, handle_event_selected,
    handle_trip_selected, padded_text, should_show_event, top_level_header, top_level_id,
    trip_header, DisplayItem, UiState,
};
use scraper::scraper::{GpsLocation, ScrapedData};
use scraper::ui_demo::{create_dummy_data, grid_id, group_header, summary_line};

fn rec(et: &str, on_trip: bool) -> ScrapedData {
    ScrapedData {
        date_time: "22/04/2025 00:16:44".to_string(),
        unix_time: 1,
        on_trip,
        trip_num: "7".to_string(),
        event_type: et.to_string(),
        ev_detail: vec![("Operator id".to_string(), "12345".to_string())],
        ev_supported: true,
        gps_rssi: 23,
        gps_speed: 85,
        gps_locn: GpsLocation { lat: "-274000200".to_string(), lon: "1530000200".to_string() },
    }
}

fn shape(v: &[DisplayItem]) -> Vec<Vec<usize>> {
    v.iter()
        .map(|d| match d {
            DisplayItem::TopLevel(i) => vec![*i],
            DisplayItem::Trip(evs) => {
                let mut r = vec![usize::MAX];
                r.extend(evs.iter().copied());
                r
            }
        })
        .collect()
}

#[test]
fn filter_settings() {
    assert!(should_show_event(&rec("SIGNON", false), false, false, false, false));
    assert!(!should_show_event(&rec("TRIP", false), true, true, true, true));
    assert!(should_show_event(&rec("TRIP", true), false, false, false, false));
    assert!(!should_show_event(&rec("REPORT", true), true, true, false, true));
    assert!(should_show_event(&rec("REPORT", true), false, false, true, false));
    assert!(!should_show_event(&rec("DEBUG", false), true, true, true, true));
    assert!(should_show_event(&rec("INPUT", true), false, true, false, false));
    assert!(should_show_event(&rec("OVERSPEED", true), false, false, false, false));
    assert!(!should_show_event(&rec("SWSTART", false), false, true, true, true));
    assert!(should_show_event(&rec("SWSTART", false), true, false, false, false));
}

#[test]
fn events_group_into_trips() {
    let data = vec![
        rec("SWSTART", false),
        rec("SIGNON", true),
        rec("REPORT", true),
        rec("OVERSPEED", true),
        rec("TRIP", true),
        rec("POWERDOWN", false),
        rec("SIGNON", true),
        rec("IMPACT", true),
    ];
    let plan = display_entries(&data, false, false, false, false);
    assert_eq!(shape(&plan), vec![vec![usize::MAX, 1, 3, 4], vec![usize::MAX, 6, 7]]);
    let plan = display_entries(&data, true, false, true, false);
    assert_eq!(
        shape(&plan),
        vec![vec![0], vec![usize::MAX, 1, 2, 3, 4], vec![5], vec![usize::MAX, 6, 7]]
    );
}

#[test]
fn trip_without_signon_stands_alone() {
    let data = vec![rec("TRIP", true), rec("OVERSPEED", true)];
    assert_eq!(shape(&display_entries(&data, false, false, false, false)), vec![vec![0], vec![1]]);
}

#[test]
fn second_signon_drops_the_open_trip() {
    let data = vec![rec("SIGNON", true), rec("OVERSPEED", true), rec("SIGNON", true), rec("TRIP", true)];
    assert_eq!(shape(&display_entries(&data, false, false, false, false)), vec![vec![usize::MAX, 2, 3]]);
}

#[test]
fn display_state() {
    let mut s = UiState::default();
    assert!(!s.display_ready);
    s.update_with_scraped_data(&[rec("SIGNON", true)]);
    assert!(s.display_ready);
    s.update_with_scraped_data(&[]);
    assert!(!s.display_ready);
}

#[test]
fn texts_of_the_log() {
    let r = rec("SIGNON", true);
    assert_eq!(trip_header(&r), "TRIP 7 - 22/04/2025 00:16:44");
    assert_eq!(event_header(&r), format!("{:20} {}", "SIGNON", "22/04/2025 00:16:44"));
    assert_eq!(top_level_header(&r), "SIGNON 22/04/2025 00:16:44");
    assert_eq!(event_id(12, &r), "event_12_SIGNON");
    assert_eq!(top_level_id(3, &r), "3_SIGNON");
    assert_eq!(padded_text("abc", 5), "abc  ");
    assert_eq!(padded_text("abcdef", 5), "abcdef");
    assert_eq!(padded_text("é", 3), format!("{:3}", "é"));
    let rows = detail_rows(&r);
    let expected: Vec<(String, String)> = vec![
        (format!("{:20}", "Operator id"), "12345".to_string()),
        (format!("{:20}", "GPS Latitude"), "-274000200".to_string()),
        (format!("{:20}", "GPS Longitude"), "1530000200".to_string()),
        (format!("{:20}", "GPS Speed"), "85".to_string()),
        (format!("{:20}", "GPS RSSI"), "23".to_string()),
    ];
    assert_eq!(rows, expected);
    assert_eq!(handle_trip_selected("7"), "Trip selected: 7");
    assert_eq!(handle_event_selected("7", "IMPACT"), "Trip selected: 7, event IMPACT");
}

#[test]
fn theme_colours() {
    assert_eq!(plot_area_colour(true), Colour::Rgb(30, 30, 30));
    assert_eq!(plot_area_colour(false), Colour::Rgb(255, 255, 255));
    assert_eq!(event_colour(false), Colour::Rgb(56, 218, 4));
    assert_eq!(ts_digital_fill_colour(true), Colour::RgbaUnmultiplied(255, 153, 0, 50));
    assert_eq!(ts_cursor_label_colour(false), Colour::RgbaPremultiplied(245, 245, 245, 230));
}

#[test]
fn sample_groups() {
    let d = create_dummy_data();
    assert_eq!(d.len(), 3);
    assert_eq!(d[0].name, "Event Group 1 - SIGNON Events");
    assert_eq!(d[0].count, 5);
    assert_eq!(d[0].level2_items.len(), 2);
    assert_eq!(d[0].level2_items[1].level3_items[1].value, "Bus 205");
    assert_eq!(d[2].level2_items[0].summary, "Zone changed from 0 to 310");
    assert_eq!(group_header(&d[1]), "Event Group 2 - CHECKLIST Events (8)");
    assert_eq!(summary_line(&d[1].level2_items[0]), "Summary: Pre-trip inspection completed");
    assert_eq!(grid_id(&d[2].level2_items[0]), "grid_22/04/2025 00:16:46 - ZONECHANGE");
    let s = scraper::ui_demo::UiState::default();
    assert_eq!(s.display_data.len(), 3);
}
