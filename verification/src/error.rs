use vstd::prelude::*;

verus! {

/// Why a `(name, color)` severity declaration was rejected.
#[derive(Clone, Debug, PartialEq)]
pub enum KindError {
    /// A color was supplied without a custom kind name.
    ColorWithoutName,
    /// The supplied custom kind name was empty.
    EmptyCustomName,
    /// The supplied name is a reserved built-in severity name, so it cannot
    /// take a custom color; the offending name is carried along.
    ReservedName(String),
    /// A custom kind name was supplied without a color.
    MissingColor,
}

/// How resolving an external source reference failed.
#[derive(Clone, Copy, Debug, PartialEq, Eq)]
pub enum SourceLoadKind {
    NotFound,
    DecodeError,
    UnsupportedType,
}

/// The errors of the diagnostic model. Construction either yields a fully
/// valid value or fails with one of these before anything is exposed.
#[derive(Clone, Debug, PartialEq)]
pub enum ReportError {
    /// Span bounds out of order: `start > end`. Carries the offending bounds.
    InvalidSpan { start: usize, end: usize },
    /// The severity name/color coupling rules were violated.
    InvalidReportKind(KindError),
    /// Malformed color-construction input at the boundary.
    InvalidColorSpec,
    /// An unrecognized label-attach name at the configuration boundary.
    InvalidLabelAttach,
    /// A source reference could not be resolved to `(path, text)`.
    SourceLoad(SourceLoadKind),
    /// The output sink failed during a write or the final flush.
    RenderIo,
}

} // verus!
