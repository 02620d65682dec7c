//! The failures that opening, reading or closing a container can report.

use vstd::prelude::*;

verus! {

/// `std::io::Error`, carried through as an opaque value.
#[verifier::external_type_specification]
#[verifier::external_body]
pub struct ExIoError(std::io::Error);

/// Why an operation on a container failed.
#[derive(Debug)]
pub enum Error {
    /// The storage layer failed, or held fewer bytes than were asked for.
    Io(std::io::Error),
    /// The magic bytes are not those of this format. Both fields hold a
    /// bracketed list of decimal byte values.
    InvalidFormatError { expected: String, found: String },
    /// The magic bytes matched, but the rest of the header cannot be used.
    CorruptedDatabase { reason: String },
    /// Kept for lifecycle checks; no operation reports it yet.
    DatabaseAlreadyOpen,
    /// Kept for lifecycle checks; no operation reports it yet.
    DatabaseNotOpen,
}

/// An error as a mathematical value. Of an I/O error nothing is kept but
/// that it is one.
pub enum ErrorView {
    Io,
    InvalidFormatError { expected: Seq<char>, found: Seq<char> },
    CorruptedDatabase { reason: Seq<char> },
    DatabaseAlreadyOpen,
    DatabaseNotOpen,
}

impl View for Error {
    type V = ErrorView;

    open spec fn view(&self) -> ErrorView {
        match *self {
            Error::Io(_) => ErrorView::Io,
            Error::InvalidFormatError { expected, found } => ErrorView::InvalidFormatError {
                expected: expected@,
                found: found@,
            },
            Error::CorruptedDatabase { reason } => ErrorView::CorruptedDatabase {
                reason: reason@,
            },
            Error::DatabaseAlreadyOpen => ErrorView::DatabaseAlreadyOpen,
            Error::DatabaseNotOpen => ErrorView::DatabaseNotOpen,
        }
    }
}

/// Makes the error of a read that found fewer bytes than it needed. The
/// body calls `std::io::Error::new` with `std::io::ErrorKind::UnexpectedEof`
/// and the message that `std::io::Read::read_exact` gives in that case.
/// Nothing is claimed of the value.
#[verifier::external_body]
pub(crate) fn unexpected_eof() -> (e: std::io::Error) {
    std::io::Error::new(std::io::ErrorKind::UnexpectedEof, "failed to fill whole buffer")
}

} // verus!
