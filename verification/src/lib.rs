//! Log scraping, event decoding and time-series preparation for vehicle
//! monitoring unit logs.

pub mod classes;
pub mod event_detail;
pub mod numeric;
pub mod pattern;
pub mod shapes;
pub mod text;
pub mod timestamp;
pub mod scraper;
pub mod time_series_plot;
pub mod helpers_ts;
pub mod dataset_ts;
pub mod log_display;
pub mod colours;
pub mod ui_demo;
pub mod gps_plot;
pub mod float_bits;
