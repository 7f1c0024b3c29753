//! What can go wrong while a chart is prepared.

use tera::Error as TemplateError;
use vstd::prelude::*;

verus! {

/// The error that tera reports for a template it cannot parse or render.
#[verifier::external_type_specification]
#[verifier::external_body]
pub struct ExTemplateError(TemplateError);

/// Why a drawing step failed, as the drawing backend tells it.
#[derive(Debug)]
pub enum DrawingFailure {
    /// The drawing backend reported an error; the text is its description.
    Backend(String),
    /// The backend was in use by another drawing operation.
    Sharing,
    /// The chart does not fit the canvas.
    Layout,
    /// The canvas is too large: its bytes cannot be counted in 32 bits.
    Size,
}

/// Why a legend template gave no text.
#[derive(Debug)]
pub enum TemplateFailure {
    /// The template is not of the form that is supported: text and
    /// `{{ key }}` tags only.
    Form,
    /// The template engine could not render the template with the labels of
    /// a series; the error is its own.
    Engine(TemplateError),
}

/// Why no chart was produced. Any failure ends the whole rendering: there is
/// no partly drawn result.
#[derive(Debug)]
pub enum Error {
    /// A chart element could not be drawn. Preparing a chart fails so only
    /// where the canvas is too large; the other failures are those of the
    /// drawing of mesh, lines and legend that follows.
    Drawing(DrawingFailure),
    /// The legend template is malformed or could not be rendered for the
    /// labels of some series.
    Template(TemplateFailure),
    /// The time window starts and ends within the same second, so no calendar
    /// unit tells its ends apart.
    UnsupportedTimeSpan,
    /// An end of the time window lies outside the years the calendar covers.
    TimeOutOfRange,
}

/// What the message of a drawing failure says.
pub open spec fn failure_text(failure: DrawingFailure) -> Seq<char> {
    match failure {
        DrawingFailure::Backend(detail) => "backend error: "@ + detail@,
        DrawingFailure::Sharing => "Multiple backend operation in progress"@,
        DrawingFailure::Layout => "Bad layout"@,
        DrawingFailure::Size => "canvas too large"@,
    }
}

/// `text` begins with `prefix`.
pub open spec fn begins_with(text: Seq<char>, prefix: Seq<char>) -> bool {
    text.len() >= prefix.len() && text.subrange(0, prefix.len() as int) == prefix
}

/// What the message of an error says. Of an error of the template engine it
/// says how the message begins: the rest is the engine's own description.
pub open spec fn says(error: Error, message: Seq<char>) -> bool {
    match error {
        Error::Drawing(failure) => message == "failed to render chart: "@ + failure_text(failure),
        Error::Template(TemplateFailure::Form) => message
            == "invalid label template: only text and {{ key }} tags are supported"@,
        Error::Template(TemplateFailure::Engine(_)) => begins_with(
            message,
            "invalid label template: "@,
        ),
        Error::UnsupportedTimeSpan => message == "time span shorter than a second"@,
        Error::TimeOutOfRange => message == "time out of range"@,
    }
}

/// Formats tera's error with its `Display`. Trusted; nothing is claimed of
/// the text.
#[verifier::external_body]
fn describe(error: &TemplateError) -> (text: String) {
    format!("{}", error)
}

impl DrawingFailure {
    /// A description of the failure for a reader.
    pub fn message(&self) -> (m: String)
        ensures
            m@ == failure_text(*self),
    {
        match self {
            DrawingFailure::Backend(detail) => {
                String::from_str("backend error: ").concat(detail.as_str())
            },
            DrawingFailure::Sharing => String::from_str("Multiple backend operation in progress"),
            DrawingFailure::Layout => String::from_str("Bad layout"),
            DrawingFailure::Size => String::from_str("canvas too large"),
        }
    }
}

impl Error {
    /// A description of the error for a reader.
    pub fn message(&self) -> (m: String)
        ensures
            says(*self, m@),
    {
        match self {
            Error::Drawing(failure) => {
                let detail = failure.message();
                String::from_str("failed to render chart: ").concat(detail.as_str())
            },
            Error::Template(TemplateFailure::Form) => String::from_str(
                "invalid label template: only text and {{ key }} tags are supported",
            ),
            Error::Template(TemplateFailure::Engine(error)) => {
                let detail = describe(error);
                let m = String::from_str("invalid label template: ").concat(detail.as_str());
                assert(m@.subrange(0, "invalid label template: "@.len() as int)
                    =~= "invalid label template: "@);
                m
            },
            Error::UnsupportedTimeSpan => String::from_str("time span shorter than a second"),
            Error::TimeOutOfRange => String::from_str("time out of range"),
        }
    }
}

} // verus!
