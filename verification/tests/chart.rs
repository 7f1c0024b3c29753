use promchart::chart::{background, border, canvas};
use promchart::value::{HALF, ONE, ZERO};
use promchart::{
    color_at, render, render_with, Error, Labels, Metric, Rgb, Sample, Settings, TimeRange,
    Timestamp, ValueRange,
};

const T0: i64 = 1_583_798_400;
const T1: i64 = 1_583_884_800;

fn instant(secs: i64) -> Timestamp {
    Timestamp { secs, nanos: 0 }
}

fn day() -> TimeRange {
    TimeRange { start: instant(T0), end: instant(T1) }
}

fn metric(pairs: &[(&str, &str)], samples: &[(i64, f64)]) -> Metric {
    let mut labels = Labels::new();
    for (k, v) in pairs {
        labels.insert(k.to_string(), v.to_string());
    }
    let data = samples.iter().map(|(t, v)| Sample { time: instant(*t), value: v.to_bits() }).collect();
    Metric { labels, data }
}

fn use_size_error(r: Result<promchart::Chart, Error>) {
    assert!(matches!(r, Err(Error::Drawing(promchart::DrawingFailure::Size))));
}

fn use_form_error(r: Result<promchart::Chart, Error>) {
    assert!(matches!(r, Err(Error::Template(promchart::error::TemplateFailure::Form))));
}

fn two_series() -> Vec<Metric> {
    vec![
        metric(&[("__name__", "cpu"), ("mode", "idle")], &[(T0, 1.0), (T1, 3.0)]),
        metric(&[("__name__", "cpu"), ("mode", "user")], &[(T0, 2.0), (T1, 2.0)]),
    ]
}

#[test]
fn two_series_at_800_by_480() {
    let chart = render(two_series(), day(), 800, 480, None).unwrap();
    assert_eq!(chart.width, 800);
    assert_eq!(chart.height, 480);
    assert_eq!(chart.buffer.len(), 800 * 480 * 3);
    assert_eq!(chart.x_range, day());
    assert_eq!(chart.x_format, "%m-%d %H:%M");
    assert_eq!(
        chart.y_range,
        ValueRange::Span { min: 1.0f64.to_bits(), max: 3.0f64.to_bits() }
    );
    assert_eq!(chart.series.len(), 2);
    assert_eq!(chart.series[0].color, color_at(0));
    assert_eq!(chart.series[1].color, color_at(1));
    assert_ne!(chart.series[0].color, chart.series[1].color);
    assert_eq!(chart.series[0].label, "cpu{mode=\"idle\"}");
    assert_eq!(chart.series[1].label, "cpu{mode=\"user\"}");
    assert_eq!(chart.series[0].data, two_series()[0].data);
    assert_eq!(chart.series[1].data, two_series()[1].data);
    assert_eq!(
        chart.series[0].data,
        vec![
            Sample { time: instant(T0), value: 1.0f64.to_bits() },
            Sample { time: instant(T1), value: 3.0f64.to_bits() },
        ]
    );
}

#[test]
fn canvas_is_filled_with_the_background() {
    let chart = render(two_series(), day(), 64, 48, None).unwrap();
    assert_eq!(chart.buffer.len(), 64 * 48 * 3);
    assert!(chart.buffer.iter().all(|b| *b == 255));
}

#[test]
fn canvas_takes_any_color() {
    let buffer = canvas(9, 4, Rgb { red: 1, green: 2, blue: 3 });
    assert_eq!(buffer.len(), 9 * 4 * 3);
    for pixel in buffer.chunks(3) {
        assert_eq!(pixel, &[1, 2, 3]);
    }
    let narrow = canvas(3, 2, Rgb { red: 9, green: 8, blue: 7 });
    assert_eq!(narrow, vec![9, 8, 7, 9, 8, 7, 9, 8, 7, 9, 8, 7, 9, 8, 7, 9, 8, 7]);
    assert_eq!(canvas(0, 5, background()).len(), 0);
}

#[test]
fn background_is_white_and_border_black() {
    assert_eq!(background(), Rgb { red: 255, green: 255, blue: 255 });
    assert_eq!(border(), Rgb { red: 0, green: 0, blue: 0 });
}

#[test]
fn no_series_still_gives_a_chart() {
    let chart = render(vec![], day(), 800, 480, None).unwrap();
    assert_eq!(chart.buffer.len(), 800 * 480 * 3);
    assert!(chart.series.is_empty());
    assert_eq!(chart.y_range, ValueRange::Span { min: ZERO, max: ONE });
    assert_eq!(chart.x_format, "%m-%d %H:%M");
}

#[test]
fn series_without_samples_fall_back_too() {
    let metrics = vec![metric(&[("a", "b")], &[]), metric(&[("c", "d")], &[])];
    let chart = render(metrics, day(), 100, 50, None).unwrap();
    assert_eq!(chart.y_range, ValueRange::Span { min: ZERO, max: ONE });
    assert_eq!(chart.series.len(), 2);
}

#[test]
fn a_single_sample_is_surrounded() {
    let metrics = vec![metric(&[("a", "b")], &[]), metric(&[("c", "d")], &[(T0, 7.25)])];
    let chart = render(metrics, day(), 100, 50, None).unwrap();
    assert_eq!(chart.y_range, ValueRange::Around { center: 7.25f64.to_bits(), epsilon: HALF });
}

#[test]
fn values_of_all_series_bound_the_axis() {
    let metrics = vec![
        metric(&[("a", "1")], &[(T0, 4.0), (T1, 5.0)]),
        metric(&[("a", "2")], &[(T0, -2.0)]),
        metric(&[("a", "3")], &[(T0, 9.5), (T1, 0.0)]),
    ];
    let chart = render(metrics, day(), 100, 50, None).unwrap();
    assert_eq!(
        chart.y_range,
        ValueRange::Span { min: (-2.0f64).to_bits(), max: 9.5f64.to_bits() }
    );
}

#[test]
fn template_gives_the_legend_texts() {
    let chart = render(two_series(), day(), 800, 480, Some("{{mode}}")).unwrap();
    assert_eq!(chart.series[0].label, "idle");
    assert_eq!(chart.series[1].label, "user");
}

#[test]
fn a_bad_template_fails_the_rendering() {
    let r = render(two_series(), day(), 800, 480, Some("{{mode"));
    assert!(matches!(r, Err(Error::Template(_))));
}

#[test]
fn a_template_of_another_form_fails_the_rendering() {
    use_form_error(render(two_series(), day(), 80, 48, Some("{{ mode | upper }}")));
    use_form_error(render(two_series(), day(), 80, 48, Some("{{ -9223372036854775808 % -1 }}")));
}

#[test]
fn a_bad_template_does_not_matter_without_series() {
    assert!(render(vec![], day(), 800, 480, Some("{{mode")).is_ok());
}

#[test]
fn a_template_that_fails_for_one_series_fails_the_rendering() {
    let metrics = vec![
        metric(&[("mode", "idle")], &[(T0, 1.0)]),
        metric(&[("cpu", "0")], &[(T0, 1.0)]),
    ];
    assert!(matches!(render(metrics, day(), 80, 48, Some("{{mode}}")), Err(Error::Template(_))));
}

#[test]
fn a_window_within_one_second_fails_the_rendering() {
    let range = TimeRange { start: instant(T0), end: Timestamp { secs: T0, nanos: 500 } };
    assert!(matches!(render(two_series(), range, 80, 48, None), Err(Error::UnsupportedTimeSpan)));
}

#[test]
fn a_window_beyond_the_calendar_fails_the_rendering() {
    let range = TimeRange { start: instant(T0), end: instant(i64::MAX) };
    assert!(matches!(render(two_series(), range, 80, 48, None), Err(Error::TimeOutOfRange)));
}

#[test]
fn many_series_reuse_the_palette() {
    let metrics: Vec<Metric> =
        (0..50).map(|i| metric(&[("n", &i.to_string())], &[(T0, i as f64)])).collect();
    let chart = render(metrics, day(), 80, 48, None).unwrap();
    assert_eq!(chart.series.len(), 50);
    for (i, style) in chart.series.iter().enumerate() {
        assert_eq!(style.color, color_at(i));
        assert_eq!(style.label, format!("{{n=\"{}\"}}", i));
    }
    assert_eq!(chart.series[45].color, chart.series[0].color);
}

#[test]
fn usual_settings() {
    let settings = Settings::default();
    assert_eq!(settings.background, Rgb { red: 255, green: 255, blue: 255 });
    assert_eq!(settings.value_epsilon, 0.5f64.to_bits());
    assert_eq!(
        settings.empty_values,
        ValueRange::Span { min: 0.0f64.to_bits(), max: 1.0f64.to_bits() }
    );
}

#[test]
fn settings_of_the_caller_are_used() {
    let settings = Settings {
        background: Rgb { red: 10, green: 20, blue: 30 },
        value_epsilon: 2.0f64.to_bits(),
        empty_values: ValueRange::Span { min: (-1.0f64).to_bits(), max: 1.0f64.to_bits() },
    };
    let chart = render_with(&settings, vec![], day(), 20, 10, None).unwrap();
    assert_eq!(chart.y_range, settings.empty_values);
    for pixel in chart.buffer.chunks(3) {
        assert_eq!(pixel, &[10, 20, 30]);
    }
    let one = vec![metric(&[("a", "b")], &[(T0, 4.0)])];
    let chart = render_with(&settings, one, day(), 20, 10, None).unwrap();
    assert_eq!(
        chart.y_range,
        ValueRange::Around { center: 4.0f64.to_bits(), epsilon: 2.0f64.to_bits() }
    );
}

#[test]
fn a_canvas_too_large_fails_the_rendering() {
    use_size_error(render(two_series(), day(), 65_536, 21_846, None));
    use_size_error(render(vec![], day(), u32::MAX, u32::MAX, None));
    use_size_error(render(vec![], day(), 1_431_655_766, 1, Some("{{ mode | upper }}")));
    // the size is looked at first: this window has no time format either
    let range = TimeRange { start: instant(T0), end: instant(T0) };
    use_size_error(render(vec![], range, u32::MAX, 2, None));
}

#[test]
fn the_largest_row_is_rendered() {
    let chart = render(vec![], day(), 1_000_000, 1, None).unwrap();
    assert_eq!(chart.buffer.len(), 3_000_000);
}
