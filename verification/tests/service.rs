use promchart::service::{
    fits, query_step, window_before, QueryParams, DEFAULT_HEIGHT, DEFAULT_WIDTH, WINDOW_SECONDS,
};
use promchart::{TimeRange, Timestamp};

#[test]
fn missing_sizes_take_the_defaults() {
    let none = QueryParams { w: None, h: None };
    assert_eq!((none.width(), none.height()), (800, 480));
    assert_eq!((DEFAULT_WIDTH, DEFAULT_HEIGHT), (800, 480));
    let both = QueryParams { w: Some(320), h: Some(200) };
    assert_eq!((both.width(), both.height()), (320, 200));
    let zero = QueryParams { w: Some(0), h: None };
    assert_eq!((zero.width(), zero.height()), (0, 480));
}

#[test]
fn sizes_that_fit() {
    assert!(fits(800, 480));
    assert!(fits(1, 1));
    assert!(fits(1_431_655_765, 1));
    assert!(fits(65_535, 21_845));
    assert!(!fits(1_431_655_766, 1));
    assert!(!fits(65_536, 21_846));
    assert!(!fits(u32::MAX, u32::MAX));
    assert!(!fits(0, 480));
    assert!(!fits(800, 0));
}

#[test]
fn window_is_the_hour_before() {
    let end = Timestamp { secs: 1_583_798_400, nanos: 12 };
    let range = window_before(end).unwrap();
    assert_eq!(range.end, end);
    assert_eq!(range.start, Timestamp { secs: 1_583_798_400 - 3600, nanos: 12 });
    assert_eq!(range.num_seconds(), WINDOW_SECONDS as i128);
}

#[test]
fn window_at_the_edge_of_the_count() {
    let first = Timestamp { secs: i64::MIN + 3600, nanos: 0 };
    assert_eq!(window_before(first).unwrap().start.secs, i64::MIN);
    assert_eq!(window_before(Timestamp { secs: i64::MIN + 3599, nanos: 0 }), None);
}

#[test]
fn step_is_seconds_per_pixel() {
    let hour = window_before(Timestamp { secs: 1_583_798_400, nanos: 0 }).unwrap();
    assert_eq!(query_step(&hour, 800), 4);
    assert_eq!(query_step(&hour, 3600), 1);
    assert_eq!(query_step(&hour, 3601), 0);
    assert_eq!(query_step(&hour, 1), 3600);
}

#[test]
fn step_counts_the_seconds_in_32_bits() {
    let at = |secs| Timestamp { secs, nanos: 0 };
    let long = TimeRange { start: at(0), end: at(0x1_0000_0000 + 50) };
    assert_eq!(query_step(&long, 10), 5);
    let backwards = TimeRange { start: at(10), end: at(0) };
    assert_eq!(query_step(&backwards, 1), (-10i64) as u32);
    assert_eq!(query_step(&backwards, 2), ((-10i64) as u32) / 2);
}
