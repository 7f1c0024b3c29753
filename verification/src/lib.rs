//! Line charts of time series: the decisions behind the picture.
//!
//! Given a set of labelled series and a time window, the library chooses how
//! the time axis is labelled, which colour each series gets, what the legend
//! says and which values bound the vertical axis, and it prepares the canvas.
//! Drawing the lines is left to the caller, who has the values as numbers.
//!
//! The functions are verified with Verus against the contracts they carry.
//! What other crates compute is taken on trust, each time in a small
//! function of its own whose comment says so.

pub mod axis;
pub mod chart;
pub mod error;
pub mod labels;
pub mod palette;
pub mod range;
pub mod series;
pub mod service;
pub mod template;
pub mod time;
pub mod value;

pub use axis::{date_format, Granularity, Unit};
pub use chart::{render, render_with, Chart, Rgb, Series, Settings};
pub use error::{DrawingFailure, Error, TemplateFailure};
pub use labels::{format_label, render_labels, LabelRenderer, Labels};
pub use palette::{color_at, colors, Hsluv, Palette};
pub use range::{checked_range, iter_to_range, AxisRange};
pub use series::{Metric, Sample};
pub use template::is_simple_template;
pub use time::{Civil, TimeRange, Timestamp};
pub use value::{value_range, ValueRange};
