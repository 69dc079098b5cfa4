use vstd::prelude::*;

verus! {

/// Every failure the adapter can report to its host.
///
/// Configuration failures name the offending option or carry the full URL
/// diagnostic; scan failures name the offending column or value; the write
/// path and rescans are unsupported by design and fail unconditionally.
#[derive(Debug, PartialEq, Eq)]
pub enum FdwError {
    /// A required option was absent from the options map; carries the key.
    MissingOption(String),
    /// The configured endpoint did not parse as an absolute URL, or the
    /// request URL could not be built from it; carries the diagnostic text.
    InvalidUrl(String),
    /// The transport reported a failure; carries its message.
    Fetch(String),
    /// The response body was not valid JSON; carries the parser's message.
    InvalidJson(String),
    /// The response body parsed, but its top level was not an array.
    NotArray,
    /// A requested column was absent from the source record; carries the name.
    MissingColumn(String),
    /// A requested column declared a type outside the supported set;
    /// carries the column name.
    UnsupportedColumnType(String),
    /// A timestamp column held a string that is not a valid RFC 3339
    /// date-time; carries the offending string.
    InvalidTimestamp(String),
    /// Restarting iteration without a fresh fetch is not supported.
    RescanUnsupported,
    /// The write path is not supported.
    ModifyUnsupported,
}

/// The mathematical shape of an [`FdwError`]: the same variants over
/// sequences of characters, so that contracts can state exactly which
/// error a function returns.
pub enum FdwErrorV {
    MissingOption(Seq<char>),
    InvalidUrl(Seq<char>),
    Fetch(Seq<char>),
    InvalidJson(Seq<char>),
    NotArray,
    MissingColumn(Seq<char>),
    UnsupportedColumnType(Seq<char>),
    InvalidTimestamp(Seq<char>),
    RescanUnsupported,
    ModifyUnsupported,
}

impl View for FdwError {
    type V = FdwErrorV;

    open spec fn view(&self) -> FdwErrorV {
        match self {
            FdwError::MissingOption(k) => FdwErrorV::MissingOption(k@),
            FdwError::InvalidUrl(m) => FdwErrorV::InvalidUrl(m@),
            FdwError::Fetch(m) => FdwErrorV::Fetch(m@),
            FdwError::InvalidJson(m) => FdwErrorV::InvalidJson(m@),
            FdwError::NotArray => FdwErrorV::NotArray,
            FdwError::MissingColumn(c) => FdwErrorV::MissingColumn(c@),
            FdwError::UnsupportedColumnType(c) => FdwErrorV::UnsupportedColumnType(c@),
            FdwError::InvalidTimestamp(s) => FdwErrorV::InvalidTimestamp(s@),
            FdwError::RescanUnsupported => FdwErrorV::RescanUnsupported,
            FdwError::ModifyUnsupported => FdwErrorV::ModifyUnsupported,
        }
    }
}

} // verus!
