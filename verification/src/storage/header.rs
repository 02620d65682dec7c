//! The fixed preamble of a container file: magic bytes, format version and
//! reserved space, 32 bytes in all at the start of the file.

use vstd::prelude::*;
use vstd::string::*;
use crate::error::{unexpected_eof, Error, ErrorView};
use crate::text::{append_byte_list, append_decimal, byte_list, decimal};

verus! {

/// The bytes that every container file starts with: `scrol` in ASCII, then
/// three zero bytes.
pub const MAGIC_BYTES: [u8; 8] = [115, 99, 114, 111, 108, 0, 0, 0];

/// The one format version that is understood.
pub const FILE_VERSION: u32 = 1;

/// The number of bytes that a header takes on disk.
pub const HEADER_SIZE: usize = 32;

/// The header of a container file.
#[derive(Debug, Clone, Copy, PartialEq, Eq)]
pub struct Header {
    pub magic: [u8; 8],
    pub version: u32,
    pub reserved: [u8; 20],
}

/// A header as a mathematical value.
pub struct HeaderView {
    pub magic: Seq<u8>,
    pub version: u32,
    pub reserved: Seq<u8>,
}

impl View for Header {
    type V = HeaderView;

    open spec fn view(&self) -> HeaderView {
        HeaderView { magic: self.magic@, version: self.version, reserved: self.reserved@ }
    }
}

/// The magic bytes as a sequence.
pub open spec fn magic() -> Seq<u8> {
    seq![115u8, 99u8, 114u8, 111u8, 108u8, 0u8, 0u8, 0u8]
}

/// The four bytes of `v`, least significant first.
pub open spec fn le_bytes(v: u32) -> Seq<u8> {
    seq![
        (v % 256) as u8,
        ((v / 256) % 256) as u8,
        ((v / 65536) % 256) as u8,
        (v / 16777216) as u8,
    ]
}

/// The number whose four bytes, least significant first, are `b`.
pub open spec fn le_value(b: Seq<u8>) -> u32
    recommends
        b.len() == 4,
{
    (b[0] + 256 * b[1] + 65536 * b[2] + 16777216 * b[3]) as u32
}

/// What is reported of a header whose version is `found` and not the
/// supported one.
pub open spec fn version_complaint(found: u32) -> Seq<char> {
    "Unsupported file version: expected "@ + decimal(FILE_VERSION as nat) + ", found "@
        + decimal(found as nat)
}

impl HeaderView {
    /// The header of a new container: the magic bytes, the supported
    /// version, and twenty zero bytes.
    pub open spec fn fresh() -> HeaderView {
        HeaderView { magic: magic(), version: FILE_VERSION, reserved: Seq::new(20, |i: int| 0u8) }
    }

    /// The fields have the lengths that the layout gives them.
    pub open spec fn well_formed(self) -> bool {
        self.magic.len() == 8 && self.reserved.len() == 20
    }

    /// The bytes of the header on disk: the magic bytes, the version least
    /// significant byte first, the reserved bytes.
    pub open spec fn encoding(self) -> Seq<u8> {
        self.magic + le_bytes(self.version) + self.reserved
    }

    /// The header that the first 32 bytes of `bytes` hold, or an I/O error
    /// where there are fewer.
    pub open spec fn decoding(bytes: Seq<u8>) -> Result<HeaderView, ErrorView> {
        if bytes.len() < 32 {
            Err(ErrorView::Io)
        } else {
            Ok(
                HeaderView {
                    magic: bytes.subrange(0, 8),
                    version: le_value(bytes.subrange(8, 12)),
                    reserved: bytes.subrange(12, 32),
                },
            )
        }
    }

    /// The verdict on a header: the magic bytes are looked at first, the
    /// version only where they match.
    pub open spec fn validation(self) -> Result<(), ErrorView> {
        if self.magic != magic() {
            Err(
                ErrorView::InvalidFormatError {
                    expected: byte_list(magic()),
                    found: byte_list(self.magic),
                },
            )
        } else if self.version != FILE_VERSION {
            Err(ErrorView::CorruptedDatabase { reason: version_complaint(self.version) })
        } else {
            Ok(())
        }
    }
}

/// The mathematical value of a header or of the error in its place.
pub open spec fn outcome_view(r: Result<Header, Error>) -> Result<HeaderView, ErrorView> {
    match r {
        Ok(h) => Ok(h@),
        Err(e) => Err(e@),
    }
}

/// The mathematical value of a verdict.
pub open spec fn verdict_view(r: Result<(), Error>) -> Result<(), ErrorView> {
    match r {
        Ok(_) => Ok(()),
        Err(e) => Err(e@),
    }
}

fn same_bytes(a: &[u8], b: &[u8]) -> (same: bool)
    ensures
        same == (a@ == b@),
{
    if a.len() != b.len() {
        return false;
    }
    let mut i: usize = 0;
    while i < a.len()
        invariant
            a@.len() == b@.len(),
            i <= a@.len(),
            forall|j: int| 0 <= j < i ==> a@[j] == b@[j],
        decreases a@.len() - i,
    {
        if a[i] != b[i] {
            return false;
        }
        i += 1;
    }
    assert(a@ =~= b@);
    true
}

impl Header {
    /// The header of a new container.
    pub fn new() -> (h: Header)
        ensures
            h@ == HeaderView::fresh(),
    {
        let h = Header { magic: MAGIC_BYTES, version: FILE_VERSION, reserved: [0u8; 20] };
        proof {
            law_magic_constant();
        }
        assert(h.reserved@ =~= Seq::new(20, |i: int| 0u8));
        h
    }

    /// Reads a header from `source`, the bytes of a container from its
    /// start. The first 32 bytes are taken; with fewer the read fails as a
    /// short read of a file does.
    pub fn read_from(source: &[u8]) -> (r: Result<Header, Error>)
        ensures
            outcome_view(r) == HeaderView::decoding(source@),
    {
        if source.len() < HEADER_SIZE {
            return Err(Error::Io(unexpected_eof()));
        }
        let mut magic = [0u8; 8];
        let mut i: usize = 0;
        while i < 8
            invariant
                i <= 8,
                source@.len() >= 32,
                forall|j: int| 0 <= j < i ==> magic@[j] == source@[j],
            decreases 8 - i,
        {
            magic[i] = source[i];
            i += 1;
        }
        let version: u32 = source[8] as u32 + 256 * (source[9] as u32) + 65536 * (
        source[10] as u32) + 16777216 * (source[11] as u32);
        let mut reserved = [0u8; 20];
        let mut k: usize = 0;
        while k < 20
            invariant
                k <= 20,
                source@.len() >= 32,
                forall|j: int| 0 <= j < k ==> reserved@[j] == source@[12 + j],
            decreases 20 - k,
        {
            reserved[k] = source[12 + k];
            k += 1;
        }
        assert(magic@ =~= source@.subrange(0, 8));
        assert(reserved@ =~= source@.subrange(12, 32));
        Ok(Header { magic, version, reserved })
    }

    /// The 32 bytes that stand for the header at the start of a container.
    /// Reading them gives the header back.
    pub fn write_to(&self) -> (image: [u8; 32])
        ensures
            image@ == self@.encoding(),
            HeaderView::decoding(image@) == Ok::<HeaderView, ErrorView>(self@),
    {
        let mut image = [0u8; 32];
        let mut i: usize = 0;
        while i < 8
            invariant
                i <= 8,
                forall|j: int| 0 <= j < i ==> image@[j] == self.magic@[j],
            decreases 8 - i,
        {
            image[i] = self.magic[i];
            i += 1;
        }
        let v: u32 = self.version;
        image[8] = (v % 256) as u8;
        image[9] = ((v / 256) % 256) as u8;
        image[10] = ((v / 65536) % 256) as u8;
        image[11] = (v / 16777216) as u8;
        let mut k: usize = 0;
        while k < 20
            invariant
                k <= 20,
                forall|j: int| 0 <= j < 12 ==> image@[j] == (self.magic@ + le_bytes(v))[j],
                forall|j: int| 0 <= j < k ==> image@[12 + j] == self.reserved@[j],
            decreases 20 - k,
        {
            image[12 + k] = self.reserved[k];
            k += 1;
        }
        assert(image@ =~= self@.encoding());
        proof {
            law_read_after_write(*self);
        }
        image
    }

    /// Checks that the header is one of this format in the supported
    /// version. The magic bytes are checked first, so a header that fails
    /// both checks is reported for its magic bytes.
    pub fn validate(&self) -> (r: Result<(), Error>)
        ensures
            verdict_view(r) == self@.validation(),
    {
        if !same_bytes(self.magic.as_slice(), MAGIC_BYTES.as_slice()) {
            let mut expected = String::new();
            append_byte_list(&mut expected, MAGIC_BYTES.as_slice());
            let mut found = String::new();
            append_byte_list(&mut found, self.magic.as_slice());
            assert(expected@ =~= byte_list(magic()));
            assert(found@ =~= byte_list(self.magic@));
            return Err(Error::InvalidFormatError { expected, found });
        }
        if self.version != FILE_VERSION {
            let mut reason = String::from_str("Unsupported file version: expected ");
            append_decimal(&mut reason, FILE_VERSION);
            reason.append(", found ");
            append_decimal(&mut reason, self.version);
            assert(reason@ =~= version_complaint(self.version));
            return Err(Error::CorruptedDatabase { reason });
        }
        Ok(())
    }
}

impl Default for Header {
    fn default() -> (h: Header)
        ensures
            h@ == HeaderView::fresh(),
    {
        Header::new()
    }
}

/// The constant and the sequence of the magic bytes agree.
pub proof fn law_magic_constant()
    ensures
        MAGIC_BYTES@ == magic(),
{
    assert(MAGIC_BYTES@ =~= magic());
}

/// Two headers with the same mathematical value are the same header.
pub proof fn law_view_is_faithful(a: Header, b: Header)
    requires
        a@ == b@,
    ensures
        a == b,
{
    assert(a.magic =~= b.magic);
    assert(a.reserved =~= b.reserved);
}

/// The four bytes of a number, read back, give the number.
pub proof fn law_le_round_trip(v: u32)
    ensures
        le_bytes(v).len() == 4,
        le_value(le_bytes(v)) == v,
{
}

/// Reading what was written gives the header back, byte for byte, the
/// reserved bytes included. This holds of every header, whatever its magic
/// bytes and version are.
pub proof fn law_read_after_write(h: Header)
    ensures
        h@.encoding().len() == 32,
        HeaderView::decoding(h@.encoding()) == Ok::<HeaderView, ErrorView>(h@),
        forall|g: Header| HeaderView::decoding(h@.encoding()) == outcome_view(Ok(g)) ==> g == h,
{
    let image = h@.encoding();
    law_le_round_trip(h.version);
    assert(image.subrange(0, 8) =~= h.magic@);
    assert(image.subrange(8, 12) =~= le_bytes(h.version));
    assert(image.subrange(12, 32) =~= h.reserved@);
    assert forall|g: Header| HeaderView::decoding(image) == outcome_view(Ok(g)) implies g == h by {
        law_view_is_faithful(g, h);
    }
}

/// The version is checked only where the magic bytes match: a header with
/// other magic bytes is reported for them, whatever its version is.
pub proof fn law_magic_before_version(h: Header)
    ensures
        h@.magic != magic() ==> h@.validation() == Err::<(), ErrorView>(
            ErrorView::InvalidFormatError {
                expected: byte_list(magic()),
                found: byte_list(h@.magic),
            },
        ),
        h@.magic == magic() && h@.version != FILE_VERSION ==> h@.validation() == Err::<
            (),
            ErrorView,
        >(ErrorView::CorruptedDatabase { reason: version_complaint(h@.version) }),
        h@.validation() is Ok <==> h@.magic == magic() && h@.version == FILE_VERSION,
{
}

} // verus!
