use vstd::prelude::*;

verus! {

/// The errors a caller of this library can receive.
///
/// Structural failures (a malformed token stream, an unreadable attribute
/// list, an unparsable required datetime) abort a parse and surface here;
/// semantic anomalies (blank optional dates, unknown elements) are absorbed
/// by the coercion rules and never do.
#[derive(Clone, Debug, PartialEq, Eq)]
pub enum Error {
    /// The file is not an XML file.
    InvalidFileType(String),
    /// No file was found at the given path.
    FileNotFound(String),
    /// A fatal parsing failure, with a human-readable message.
    ParsingError(String),
    /// An ambiguous pre-flight condition, such as a path with no extension.
    Unknown,
}

/// The mathematical shadow of [`Error`]: the same variants over character
/// sequences, used by every contract that speaks of a failure.
#[verifier::ext_equal]
pub enum ErrorV {
    InvalidFileType(Seq<char>),
    FileNotFound(Seq<char>),
    ParsingError(Seq<char>),
    Unknown,
}

impl DeepView for Error {
    type V = ErrorV;

    open spec fn deep_view(&self) -> ErrorV {
        match self {
            Error::InvalidFileType(p) => ErrorV::InvalidFileType(p.deep_view()),
            Error::FileNotFound(p) => ErrorV::FileNotFound(p.deep_view()),
            Error::ParsingError(m) => ErrorV::ParsingError(m.deep_view()),
            Error::Unknown => ErrorV::Unknown,
        }
    }
}

} // verus!
