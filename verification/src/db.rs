//! The rules by which a container file is opened, created and closed. The
//! caller owns the file and does the reading and writing; what is decided
//! here is whether the container may be used and what has to be written.

use vstd::prelude::*;
use crate::error::{Error, ErrorView};
use crate::storage::header::{
    law_le_round_trip, le_bytes, le_value, magic, version_complaint, Header, HeaderView,
    FILE_VERSION,
};
use crate::text::byte_list;

verus! {

/// An open container: the path it was opened with. A value exists only
/// while the container is open; `close` consumes it.
#[derive(Debug)]
pub struct Database {
    path: String,
}

impl View for Database {
    type V = Seq<char>;

    closed spec fn view(&self) -> Seq<char> {
        self.path@
    }
}

/// What was found at a path, as a mathematical value: nothing, or the bytes
/// of a file from its start.
pub open spec fn found_view(existing: Option<&[u8]>) -> Option<Seq<u8>> {
    match existing {
        Some(bytes) => Some(bytes@),
        None => None,
    }
}

impl Database {
    /// The verdict on an existing file that holds `bytes`: its header, where
    /// it has a whole one that passes validation, and else the error of the
    /// first step that failed.
    pub open spec fn inspection(bytes: Seq<u8>) -> Result<HeaderView, ErrorView> {
        match HeaderView::decoding(bytes) {
            Err(e) => Err(e),
            Ok(h) => match h.validation() {
                Err(e) => Err(e),
                Ok(_) => Ok(h),
            },
        }
    }

    /// The header that the container has once it is open, or why it cannot
    /// be opened. Where nothing exists a new container is made, which always
    /// succeeds as far as the header is concerned.
    pub open spec fn opening(existing: Option<Seq<u8>>) -> Result<HeaderView, ErrorView> {
        match existing {
            Some(bytes) => Self::inspection(bytes),
            None => Ok(HeaderView::fresh()),
        }
    }

    /// What the file holds after a successful `open`, as far as it is
    /// determined: an existing file is left as it was, a new one holds a
    /// fresh header.
    pub open spec fn content_after_open(existing: Option<Seq<u8>>) -> Seq<u8> {
        match existing {
            Some(bytes) => bytes,
            None => HeaderView::fresh().encoding(),
        }
    }

    /// Opens the container at `path`. `existing` is `None` where no file is
    /// there, and else the bytes of the file from its start.
    ///
    /// An existing file must hold a whole, valid header, and nothing is to be
    /// written. For a missing file the result carries the 32 bytes that the
    /// caller has to write at the start of the new file.
    pub fn open(path: String, existing: Option<&[u8]>) -> (r: Result<
        (Database, Option<[u8; 32]>),
        Error,
    >)
        ensures
            match r {
                Ok((db, image)) => {
                    &&& db@ == path@
                    &&& Self::opening(found_view(existing)) is Ok
                    &&& match image {
                        Some(bytes) => existing is None && bytes@ == HeaderView::fresh().encoding(),
                        None => existing is Some,
                    }
                },
                Err(e) => Self::opening(found_view(existing)) == Err::<HeaderView, ErrorView>(e@),
            },
    {
        match existing {
            Some(bytes) => {
                let header = match Header::read_from(bytes) {
                    Ok(header) => header,
                    Err(e) => {
                        return Err(e);
                    },
                };
                match header.validate() {
                    Ok(_) => Ok((Database { path }, None)),
                    Err(e) => Err(e),
                }
            },
            None => {
                let header = Header::new();
                let image = header.write_to();
                Ok((Database { path }, Some(image)))
            },
        }
    }

    /// The path that the container was opened with.
    pub fn path(&self) -> (p: &str)
        ensures
            p@ == self@,
    {
        self.path.as_str()
    }

    /// Closes the container. `flushed` is what flushing the file gave; a
    /// failure of it is the failure of the close.
    pub fn close(self, flushed: Result<(), std::io::Error>) -> (r: Result<(), Error>)
        ensures
            match flushed {
                Ok(_) => r is Ok,
                Err(e) => r == Err::<(), Error>(Error::Io(e)),
            },
    {
        match flushed {
            Ok(_) => Ok(()),
            Err(e) => Err(Error::Io(e)),
        }
    }
}

/// A file with fewer than 32 bytes is refused with an I/O error, whatever
/// the bytes are: nothing of it is validated.
pub proof fn law_short_file(bytes: Seq<u8>)
    requires
        bytes.len() < 32,
    ensures
        Database::opening(Some(bytes)) == Err::<HeaderView, ErrorView>(ErrorView::Io),
{
}

/// A file whose first eight bytes are not the magic bytes is refused as
/// being of another format, whatever its version field holds. The error
/// names the magic bytes as expected and the eight bytes as found.
pub proof fn law_wrong_magic(bytes: Seq<u8>)
    requires
        bytes.len() >= 32,
        bytes.subrange(0, 8) != magic(),
    ensures
        Database::opening(Some(bytes)) == Err::<HeaderView, ErrorView>(
            ErrorView::InvalidFormatError {
                expected: byte_list(magic()),
                found: byte_list(bytes.subrange(0, 8)),
            },
        ),
{
}

/// A file with the magic bytes and another version than the supported one
/// is refused as corrupted, with a reason that names both versions.
pub proof fn law_wrong_version(bytes: Seq<u8>)
    requires
        bytes.len() >= 32,
        bytes.subrange(0, 8) == magic(),
        le_value(bytes.subrange(8, 12)) != FILE_VERSION,
    ensures
        Database::opening(Some(bytes)) == Err::<HeaderView, ErrorView>(
            ErrorView::CorruptedDatabase {
                reason: version_complaint(le_value(bytes.subrange(8, 12))),
            },
        ),
{
}

/// A container that was just made opens again, with a fresh header.
pub proof fn law_new_container_opens()
    ensures
        Database::opening(Some(Database::content_after_open(None))) == Ok::<
            HeaderView,
            ErrorView,
        >(HeaderView::fresh()),
{
    let fresh = HeaderView::fresh();
    let image = fresh.encoding();
    law_le_round_trip(FILE_VERSION);
    assert(image.subrange(0, 8) =~= fresh.magic);
    assert(image.subrange(8, 12) =~= le_bytes(FILE_VERSION));
    assert(image.subrange(12, 32) =~= fresh.reserved);
}

/// Opening again what was opened with success, made or found, and not
/// touched since, succeeds and gives the same header.
pub proof fn law_reopen(existing: Option<Seq<u8>>)
    requires
        Database::opening(existing) is Ok,
    ensures
        Database::opening(Some(Database::content_after_open(existing))) == Database::opening(
            existing,
        ),
{
    if existing is None {
        law_new_container_opens();
    }
}

} // verus!
