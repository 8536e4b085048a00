//! The archive format of the rows, which the `rkyv` crate defines.
//!
//! The two calls into `rkyv` stand here, each in a function whose contract
//! is believed and not proved: it states what the call is taken to do.

use vstd::prelude::*;
use vstd::utf8::encode_utf8;

verus! {

/// The error type of `rkyv`'s high-level calls.
#[verifier::external_type_specification]
#[verifier::external_body]
pub struct ExArchiveError(rkyv::rancor::Error);

/// What `rkyv::to_bytes` returns for a vector of rows: the bytes of the
/// archive, or `None` where it reports an error.
pub uninterp spec fn archived(rows: Seq<(u16, u32, u32, Seq<char>)>) -> Option<Seq<u8>>;

/// What `rkyv::from_bytes` returns for bytes that start at an aligned
/// address: the rows it reads, or `None` where it rejects the bytes.
pub uninterp spec fn unarchived(bytes: Seq<u8>) -> Option<Seq<(u16, u32, u32, Seq<char>)>>;

/// The values of the rows held in a vector.
pub open spec fn row_views(rows: Seq<(u16, u32, u32, String)>) -> Seq<(u16, u32, u32, Seq<char>)> {
    rows.map_values(|r: (u16, u32, u32, String)| (r.0, r.1, r.2, r.3@))
}

/// The most that an archive may take. Its offsets are signed numbers of 32
/// bits, and on a machine of 32 bits the buffer that `rkyv` writes to holds
/// all but the last sixteen bytes of that range.
pub const MAX_ARCHIVE_SIZE: u64 = 0x7fff_fff0;

/// The size of the fixed part of a row in an archive.
pub const ROW_SIZE: u64 = 20;

/// What the root of an archive and the padding before it and before the
/// rows take at most.
pub const ROOT_SIZE: u64 = 16;

/// The alignment of the buffer that an archive is read from.
pub const BUFFER_ALIGNMENT: usize = 16;

/// The most bytes that `rkyv`'s aligned buffer holds.
pub open spec fn max_aligned_len() -> int {
    isize::MAX - (BUFFER_ALIGNMENT - 1)
}

/// An upper bound on the size of the archive of `rows`. `rkyv` writes the
/// UTF-8 bytes of each label that is longer than eight bytes, then the fixed
/// parts of the rows, then the root, and pads before the rows and before
/// the root.
pub open spec fn archive_bound(rows: Seq<(u16, u32, u32, Seq<char>)>) -> int
    decreases rows.len(),
{
    if rows.len() == 0 {
        ROOT_SIZE as int
    } else {
        archive_bound(rows.drop_last()) + ROW_SIZE + encode_utf8(rows.last().3).len()
    }
}

/// Says whether `rkyv`'s aligned buffer can hold `len` bytes.
pub fn fits_aligned_buffer(len: usize) -> (fits: bool)
    ensures
        fits == (len <= max_aligned_len()),
{
    len <= isize::MAX as usize - (BUFFER_ALIGNMENT - 1)
}

/// Calls `rkyv::to_bytes`. The result is a function of the rows alone, and
/// bytes that come out are read back by `rkyv::from_bytes` as the same rows.
/// Rows whose archive could pass `MAX_ARCHIVE_SIZE` are left out, because
/// `rkyv` panics when an offset does not fit or its buffer is full.
#[verifier::external_body]
pub(crate) fn archive_rows(rows: &Vec<(u16, u32, u32, String)>) -> (r: Result<Vec<u8>, rkyv::rancor::Error>)
    requires
        archive_bound(row_views(rows@)) <= MAX_ARCHIVE_SIZE,
    ensures
        r is Ok <==> archived(row_views(rows@)) is Some,
        r matches Ok(bytes) ==> archived(row_views(rows@)) == Some(bytes@),
        r matches Ok(bytes) ==> unarchived(bytes@) == Some(row_views(rows@)),
{
    match rkyv::to_bytes::<rkyv::rancor::Error>(rows) {
        Ok(aligned) => Ok(aligned.into_vec()),
        Err(e) => Err(e),
    }
}

/// Copies the bytes to an aligned buffer and calls `rkyv::from_bytes` on it,
/// which validates the bytes before it reads them. The result is a function
/// of the bytes alone. Inputs longer than the aligned buffer can hold are
/// left out, because the buffer panics on them.
#[verifier::external_body]
pub(crate) fn unarchive_rows(bytes: &[u8]) -> (r: Result<Vec<(u16, u32, u32, String)>, rkyv::rancor::Error>)
    requires
        bytes@.len() <= max_aligned_len(),
    ensures
        r is Ok <==> unarchived(bytes@) is Some,
        r matches Ok(rows) ==> unarchived(bytes@) == Some(row_views(rows@)),
{
    let mut aligned = rkyv::util::AlignedVec::<16>::with_capacity(bytes.len());
    aligned.extend_from_slice(bytes);
    rkyv::from_bytes::<Vec<(u16, u32, u32, String)>, rkyv::rancor::Error>(&aligned)
}

} // verus!
