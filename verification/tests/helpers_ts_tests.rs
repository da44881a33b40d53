use scraper::float_bits::u32_as_f32_bits;
use scraper::helpers_ts::{
    calculate_time_range, calculate_y_range, convert_to_pulse_data, f32_bits_to_u64,
    unix_time_to_hms, YRange,
};
use scraper::time_series_plot::{
    axis_ticks, middle_time, plot_title, PlotModes, SinglePoint, TimeSeriesData, F32_ONE, F32_ZERO,
};

fn pt(t: u64, v: f32) -> SinglePoint {
    SinglePoint { unix_time: t, point_value: v.to_bits() }
}

fn data(data_type: &str, levels: usize, points: Vec<SinglePoint>) -> TimeSeriesData {
    TimeSeriesData {
        series_name: "S".to_string(),
        data_type: data_type.to_string(),
        units: "u".to_string(),
        levels: (0..levels).map(|i| format!("L{}", i)).collect(),
        time_series_points: points,
        multi_traces: Vec::new(),
        tall_chart: false,
    }
}

#[test]
fn hms_of_midnight_and_later() {
    assert_eq!(unix_time_to_hms(0), "00:00:00");
    assert_eq!(unix_time_to_hms(3661), "01:01:01");
    assert_eq!(unix_time_to_hms(86399), "23:59:59");
    assert_eq!(unix_time_to_hms(86405), "00:00:05");
    // 2025-04-22 00:16:44 UTC
    assert_eq!(unix_time_to_hms(1745281004), "00:16:44");
}

#[test]
fn time_range_of_no_points_is_unit() {
    assert_eq!(calculate_time_range(&[]), (0, 1));
    let empty = data("Analog", 0, Vec::new());
    assert_eq!(calculate_time_range(&[empty]), (0, 1));
}

#[test]
fn time_range_spans_all_points() {
    let a = data("Analog", 0, vec![pt(50, 1.0), pt(20, 2.0)]);
    let b = data("Digital", 0, vec![pt(90, 0.0)]);
    assert_eq!(calculate_time_range(&[a, b]), (20, 90));
}

#[test]
fn y_range_rules() {
    assert!(matches!(calculate_y_range(&data("Analog", 0, Vec::new())), YRange::Unit));
    assert!(matches!(calculate_y_range(&data("Impulse", 3, vec![pt(1, 1.0)])), YRange::ImpulseLevels(3)));
    assert!(matches!(calculate_y_range(&data("Impulse", 0, vec![pt(1, 1.0)])), YRange::ImpulseDefault));
    assert!(matches!(calculate_y_range(&data("DualDigital", 2, vec![pt(1, 1.0)])), YRange::TraceLevels(2)));
    assert!(matches!(
        calculate_y_range(&data("ImpulseDigitalCombo", 0, vec![pt(1, 1.0)])),
        YRange::TraceDefault
    ));
    assert!(matches!(calculate_y_range(&data("Analog", 0, vec![pt(1, 1.0)])), YRange::FromPoints));
}

#[test]
fn f32_to_u64_truncates_and_saturates() {
    assert_eq!(f32_bits_to_u64(5.0f32.to_bits()), 5);
    assert_eq!(f32_bits_to_u64(2.9f32.to_bits()), 2);
    assert_eq!(f32_bits_to_u64(0.5f32.to_bits()), 0);
    assert_eq!(f32_bits_to_u64((-3.0f32).to_bits()), 0);
    assert_eq!(f32_bits_to_u64(f32::NAN.to_bits()), 0);
    assert_eq!(f32_bits_to_u64(1e20f32.to_bits()), u64::MAX);
    assert_eq!(f32_bits_to_u64(16777216.0f32.to_bits()), 16777216);
    assert_eq!(f32_bits_to_u64(1e10f32.to_bits()), 1e10f32 as u64);
}

#[test]
fn digital_pulse_trace() {
    let ev = vec![pt(100, 30.0), pt(110, 20.0)];
    let r = convert_to_pulse_data(&ev, 60, 200, "Digital");
    let expected: Vec<(u64, u32)> = vec![
        (60, F32_ZERO),
        (70, F32_ZERO),
        (70, F32_ONE),
        (100, F32_ONE),
        (100, F32_ZERO),
        (90, F32_ZERO),
        (90, F32_ONE),
        (110, F32_ONE),
        (110, F32_ZERO),
        (200, F32_ZERO),
    ];
    let got: Vec<(u64, u32)> = r.iter().map(|p| (p.unix_time, p.point_value)).collect();
    assert_eq!(got, expected);
}

#[test]
fn digital_pulse_before_trip_start_starts_at_trip_start() {
    // Lasting longer than the time since 1970: it starts at the trip's start.
    let ev = vec![pt(100, 500.0)];
    let r = convert_to_pulse_data(&ev, 60, 200, "Digital");
    let got: Vec<(u64, u32)> = r.iter().map(|p| (p.unix_time, p.point_value)).collect();
    assert_eq!(got, vec![(60, F32_ZERO), (60, F32_ONE), (100, F32_ONE), (100, F32_ZERO), (200, F32_ZERO)]);
}

#[test]
fn digital_pulse_longer_than_trip_so_far_starts_at_trip_start() {
    let ev = vec![pt(100, 5.0)];
    let r = convert_to_pulse_data(&ev, 100, 200, "Digital");
    let got: Vec<(u64, u32)> = r.iter().map(|p| (p.unix_time, p.point_value)).collect();
    assert_eq!(got, vec![(100, F32_ZERO), (100, F32_ONE), (100, F32_ONE), (100, F32_ZERO), (200, F32_ZERO)]);
    let ev = vec![pt(130, 45.0)];
    let r = convert_to_pulse_data(&ev, 100, 200, "Digital");
    let got: Vec<(u64, u32)> = r.iter().map(|p| (p.unix_time, p.point_value)).collect();
    assert_eq!(got, vec![(100, F32_ZERO), (100, F32_ONE), (130, F32_ONE), (130, F32_ZERO), (200, F32_ZERO)]);
}

#[test]
fn impulse_pulse_trace_rests_at_one() {
    let ev = vec![pt(100, 3.0)];
    let r = convert_to_pulse_data(&ev, 60, 200, "Impulse");
    let three = 3.0f32.to_bits();
    let got: Vec<(u64, u32)> = r.iter().map(|p| (p.unix_time, p.point_value)).collect();
    assert_eq!(
        got,
        vec![(60, F32_ONE), (100, F32_ONE), (100, three), (100, three), (100, F32_ONE), (200, F32_ONE)]
    );
}

#[test]
fn ticks_and_titles() {
    assert_eq!(axis_ticks(0, 90), vec![0, 30, 60, 90]);
    assert_eq!(axis_ticks(10, 20), vec![10, 13, 16, 20]);
    assert!(axis_ticks(5, 5).is_empty());
    assert_eq!(middle_time(10, 21), 15);
    assert_eq!(middle_time(u64::MAX, u64::MAX), u64::MAX);
    let d = data("Analog", 0, Vec::new());
    assert_eq!(plot_title(&d), "S (u)");
}

#[test]
fn plot_modes_exclude_each_other() {
    let mut m = PlotModes::new();
    assert!(!m.cursor_enabled && !m.pan_zoom_enabled);
    assert!(m.toggle_pan_zoom());
    assert!(m.pan_zoom_enabled);
    m.toggle_cursor();
    assert!(m.cursor_enabled && !m.pan_zoom_enabled);
    m.place_cursor(100, 201);
    assert_eq!(m.cursor_time, Some(150));
    m.place_cursor(0, 10);
    assert_eq!(m.cursor_time, Some(150));
    assert!(m.toggle_pan_zoom());
    assert!(m.pan_zoom_enabled && !m.cursor_enabled);
    assert!(!m.toggle_pan_zoom());
    assert!(!m.pan_zoom_enabled);
    assert!(m.show_trip("7"));
    assert_eq!(m.cursor_time, None);
    assert_eq!(m.current_trip.as_deref(), Some("7"));
    assert!(!m.show_trip("7"));
    assert!(m.show_trip("8"));
}

#[test]
fn integers_convert_to_f32_bits() {
    let samples = [
        0u32, 1, 2, 3, 85, 100, 255, 8388607, 8388608, 16777215, 16777216, 16777217, 16777218,
        16777219, 33554433, 33554434, 33554435, 33554438, 2147483647, 2147483648, 4294967040,
        4294967167, 4294967168, 4294967295,
    ];
    for n in samples {
        assert_eq!(u32_as_f32_bits(n), (n as f32).to_bits(), "n = {}", n);
    }
    let mut x: u64 = 12345;
    for _ in 0..20000 {
        x = x.wrapping_mul(6364136223846793005).wrapping_add(1442695040888963407);
        let n = (x >> 32) as u32 >> ((x >> 20) % 32);
        assert_eq!(u32_as_f32_bits(n), (n as f32).to_bits(), "n = {}", n);
    }
}
