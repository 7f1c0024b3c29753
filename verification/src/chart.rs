//! Putting a chart together: the canvas, the axes, and for every series its
//! colour and its legend text.

use crate::axis::{date_format, time_format};
use crate::error::{DrawingFailure, Error};
use crate::labels::{format_label, legend_of, template_text};
use crate::palette::{colors, palette_at, Hsluv};
use crate::series::{all_values, collect_values, Metric, Sample};
use crate::service::fits;
use crate::template::is_simple;
use crate::time::TimeRange;
use crate::value::{is_value_range_of, value_range, ValueRange, HALF, ONE, ZERO};
use vstd::prelude::*;

verus! {

/// A colour as red, green and blue.
#[derive(Clone, Copy, Debug, PartialEq, Eq, Structural)]
pub struct Rgb {
    pub red: u8,
    pub green: u8,
    pub blue: u8,
}

/// Bytes of one pixel on the canvas: red, green, blue.
pub const BYTES_PER_PIXEL: u32 = 3;

/// Width in pixels of the strip left of the plot that holds the value labels.
pub const LEFT_LABEL_AREA: u32 = 40;

/// Height in pixels of the strip below the plot that holds the time labels.
pub const BOTTOM_LABEL_AREA: u32 = 30;

/// Half the side of a colour swatch in the legend, in pixels.
pub const SWATCH_RADIUS: i32 = 5;

/// How much of the legend's background covers what lies under it, in percent.
pub const LEGEND_OPACITY: u8 = 80;

/// The colour of the canvas and of the legend's background.
pub open spec fn white() -> Rgb {
    Rgb { red: 255, green: 255, blue: 255 }
}

/// The colour of the legend's border.
pub open spec fn black() -> Rgb {
    Rgb { red: 0, green: 0, blue: 0 }
}

/// The colour of the canvas and of the legend's background.
pub fn background() -> (c: Rgb)
    ensures
        c == white(),
{
    Rgb { red: 255, green: 255, blue: 255 }
}

/// The colour of the legend's border.
pub fn border() -> (c: Rgb)
    ensures
        c == black(),
{
    Rgb { red: 0, green: 0, blue: 0 }
}

/// The byte of `color` that stands at place `i` of a canvas.
pub open spec fn channel(color: Rgb, i: int) -> u8 {
    if i % 3 == 0 {
        color.red
    } else if i % 3 == 1 {
        color.green
    } else {
        color.blue
    }
}

/// Every pixel of `buffer` has the colour `color`.
pub open spec fn filled_with(buffer: Seq<u8>, color: Rgb) -> bool {
    forall|i: int| 0 <= i < buffer.len() ==> buffer[i] == channel(color, i)
}

/// What a rendering leaves to its caller to choose.
#[derive(Clone, Copy, Debug, PartialEq, Eq, Structural)]
pub struct Settings {
    /// The colour of the canvas.
    pub background: Rgb,
    /// The margin to either side of a single value on the value axis, as the
    /// bits of a number.
    pub value_epsilon: u64,
    /// The range of the value axis of a chart without samples.
    pub empty_values: ValueRange,
}

/// The usual settings: a white canvas, a margin of 0.5 around a single
/// value, and the value axis from 0 to 1 where there is no sample.
pub open spec fn usual_settings() -> Settings {
    Settings {
        background: white(),
        value_epsilon: HALF,
        empty_values: ValueRange::Span { min: ZERO, max: ONE },
    }
}

impl Default for Settings {
    fn default() -> (s: Settings)
        ensures
            s == usual_settings(),
    {
        Settings {
            background: background(),
            value_epsilon: HALF,
            empty_values: ValueRange::Span { min: ZERO, max: ONE },
        }
    }
}

/// One series as it is drawn: the colour of its line and of its swatch in
/// the legend, the text beside the swatch, and the samples that the line
/// connects.
#[derive(Debug)]
pub struct Series {
    pub color: Hsluv,
    pub label: String,
    pub data: Vec<Sample>,
}

/// A chart ready for its lines: the canvas filled with the background, the
/// ranges of both axes, the format of the time labels, and every series with
/// its colour and legend text, in the order of the series.
#[derive(Debug)]
pub struct Chart {
    pub width: u32,
    pub height: u32,
    /// The pixels row by row from the top left, three bytes each.
    pub buffer: Vec<u8>,
    pub x_range: TimeRange,
    pub x_format: String,
    pub y_range: ValueRange,
    pub series: Vec<Series>,
}

/// The first `n` of `series` are the first `n` of `metrics`: series `i` has
/// the samples of metric `i`, colour `i` of the palette, and the legend text
/// that its labels have with the template `tmpl`.
pub open spec fn series_match(
    series: Seq<Series>,
    metrics: Seq<Metric>,
    n: int,
    tmpl: Option<Seq<char>>,
) -> bool {
    forall|i: int|
        0 <= i < n ==> {
            &&& (#[trigger] series[i]).color == palette_at(i as nat)
            &&& series[i].data == metrics[i].data
            &&& legend_of(metrics[i].labels@, tmpl) == Some(series[i].label@)
        }
}

/// Every series of `metrics` has a legend text with the template `tmpl`.
pub open spec fn all_named(metrics: Seq<Metric>, tmpl: Option<Seq<char>>) -> bool {
    forall|i: int|
        0 <= i < metrics.len() ==> (#[trigger] legend_of(metrics[i].labels@, tmpl)) is Some
}

/// `chart` is the chart of `metrics` over `range` on a canvas of `width` by
/// `height` pixels, made with `settings`.
pub open spec fn is_chart_of(
    chart: Chart,
    settings: Settings,
    metrics: Seq<Metric>,
    range: TimeRange,
    width: u32,
    height: u32,
    tmpl: Option<Seq<char>>,
) -> bool {
    &&& chart.width == width
    &&& chart.height == height
    &&& chart.buffer@.len() == width * height * 3
    &&& filled_with(chart.buffer@, settings.background)
    &&& chart.x_range == range
    &&& time_format(range, width) == Ok::<Seq<char>, Error>(chart.x_format@)
    &&& is_value_range_of(
        chart.y_range,
        all_values(metrics),
        settings.value_epsilon,
        settings.empty_values,
    )
    &&& chart.series@.len() == metrics.len()
    &&& series_match(chart.series@, metrics, metrics.len() as int, tmpl)
}

/// `r` is what rendering `metrics` with the template `tmpl` on a canvas of
/// `width` by `height` pixels gives: the chart, or a failure.
///
/// A canvas whose bytes cannot be counted in 32 bits fails with the
/// `Drawing` error that names the size, before anything else is looked at.
/// Else a window without a time format fails with the error that says why.
/// With a time format the rendering succeeds exactly where every series has
/// a legend text. Where one has none, it fails with the `Template` error,
/// which names the form where the template is not text and `{{ key }}` tags
/// only, and the engine otherwise.
pub open spec fn is_rendering_of(
    r: Result<Chart, Error>,
    settings: Settings,
    metrics: Seq<Metric>,
    range: TimeRange,
    width: u32,
    height: u32,
    tmpl: Option<Seq<char>>,
) -> bool {
    if width * height * 3 > u32::MAX {
        r matches Err(Error::Drawing(DrawingFailure::Size))
    } else {
        &&& match r {
            Ok(chart) => is_chart_of(chart, settings, metrics, range, width, height, tmpl),
            Err(Error::Drawing(_)) => false,
            Err(Error::Template(failure)) => {
                &&& time_format(range, width) is Ok
                &&& !all_named(metrics, tmpl)
                &&& tmpl is Some
                &&& failure is Form <==> !is_simple(tmpl->Some_0)
            },
            Err(e) => time_format(range, width) == Err::<Seq<char>, Error>(e),
        }
        &&& time_format(range, width) is Ok && all_named(metrics, tmpl) ==> r is Ok
    }
}

/// Every chart has three bytes of canvas for each of its pixels, whatever
/// the series, the window and the template are.
pub proof fn lemma_canvas_of_chart(
    chart: Chart,
    settings: Settings,
    metrics: Seq<Metric>,
    range: TimeRange,
    width: u32,
    height: u32,
    tmpl: Option<Seq<char>>,
)
    requires
        is_rendering_of(Ok(chart), settings, metrics, range, width, height, tmpl),
    ensures
        chart.buffer@.len() == width * height * 3,
        chart.series@.len() == metrics.len(),
{
}

/// A canvas of `width` by `height` pixels in the colour `color`: three
/// bytes for each pixel, row by row.
pub fn canvas(width: u32, height: u32, color: Rgb) -> (buffer: Vec<u8>)
    requires
        width * height * 3 <= u32::MAX,
    ensures
        buffer@.len() == width * height * 3,
        filled_with(buffer@, color),
{
    assert(width * height <= width * height * 3) by (nonlinear_arith);
    let pixels: u32 = width * height;
    let mut buffer: Vec<u8> = Vec::with_capacity((pixels * BYTES_PER_PIXEL) as usize);
    let mut i: u32 = 0;
    while i < pixels
        invariant
            i <= pixels,
            pixels * 3 <= u32::MAX,
            buffer@.len() == 3 * i,
            filled_with(buffer@, color),
        decreases pixels - i,
    {
        buffer.push(color.red);
        buffer.push(color.green);
        buffer.push(color.blue);
        i += 1;
    }
    buffer
}

/// Prepares the chart of `metrics` over the time window `date_range` on a
/// canvas of `w` by `h` pixels, with the settings of the caller.
///
/// The canvas is filled with the background. The time labels get the format
/// that suits the window and the width. The value axis spans the values of
/// all series, or the range set for a chart without samples. Series `i`
/// keeps its samples and gets colour `i` of the palette and as its legend
/// text `tmpl` rendered with its labels, or the canonical text of its labels
/// where `tmpl` is `None`. A template is text and `{{ key }}` tags only.
///
/// Any failure ends the rendering, and nothing of the chart is returned. A
/// canvas of more bytes than 32 bits can count is such a failure.
#[verifier::loop_isolation(false)]
pub fn render_with(
    settings: &Settings,
    metrics: Vec<Metric>,
    date_range: TimeRange,
    w: u32,
    h: u32,
    tmpl: Option<&str>,
) -> (r: Result<Chart, Error>)
    requires
        w > 0,
        h > 0,
    ensures
        is_rendering_of(r, *settings, metrics@, date_range, w, h, template_text(tmpl)),
{
    if !fits(w, h) {
        return Err(Error::Drawing(DrawingFailure::Size));
    }
    let buffer = canvas(w, h, settings.background);
    let x_format = match date_format(&date_range, w) {
        Ok(format) => format,
        Err(e) => {
            return Err(e);
        },
    };
    let values = collect_values(&metrics);
    let y_range = value_range(&values, settings.value_epsilon, settings.empty_values);
    let mut palette = colors();
    let mut series: Vec<Series> = Vec::new();
    let ghost all = metrics@;
    for metric in it: metrics
        invariant
            it.seq() == all,
            series@.len() == it.index(),
            palette.served() == it.index(),
            series_match(series@, all, it.index() as int, template_text(tmpl)),
    {
        let color = palette.next();
        let label = match format_label(&metric.labels, tmpl) {
            Ok(label) => label,
            Err(e) => {
                return Err(e);
            },
        };
        series.push(Series { color, label, data: metric.data });
    }
    Ok(Chart { width: w, height: h, buffer, x_range: date_range, x_format, y_range, series })
}

/// Prepares the chart of `metrics` over the time window `date_range` on a
/// canvas of `w` by `h` pixels, with the usual settings: a white canvas, and
/// a value axis that surrounds a single value by 0.5 and runs from 0 to 1
/// where there is no sample.
pub fn render(
    metrics: Vec<Metric>,
    date_range: TimeRange,
    w: u32,
    h: u32,
    tmpl: Option<&str>,
) -> (r: Result<Chart, Error>)
    requires
        w > 0,
        h > 0,
    ensures
        is_rendering_of(r, usual_settings(), metrics@, date_range, w, h, template_text(tmpl)),
{
    let settings = Settings::default();
    render_with(&settings, metrics, date_range, w, h, tmpl)
}

} // verus!
