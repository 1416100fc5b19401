//! Reading an entry's kind and permission bits from its tar header block.
use vstd::prelude::*;

use crate::extract::{EntryInfo, EntryKind};

verus! {

/// What tar's `Header::mode` yields for a header whose mode field holds
/// these eight bytes (`None` where the field is not an octal number).
pub uninterp spec fn tar_mode_of(field: Seq<u8>) -> Option<u32>;

/// The offset of the type flag in a header block.
pub open spec fn type_flag_offset() -> int {
    156
}

/// Relies on tar's `Header::from_byte_slice` and `Header::mode`: the mode is
/// parsed from the eight bytes at offset 100 of the block alone.
#[verifier::external_body]
fn tar_header_mode(block: &[u8]) -> (r: Option<u32>)
    requires
        block@.len() == 512,
    ensures
        r == tar_mode_of(block@.subrange(100, 108)),
{
    tar::Header::from_byte_slice(block).mode().ok()
}

/// Relies on tar's `Header::from_byte_slice` and `Header::entry_type`: the
/// type is read from the byte at offset 156, and `b'5'` alone is a directory.
#[verifier::external_body]
fn tar_header_is_dir(block: &[u8]) -> (r: bool)
    requires
        block@.len() == 512,
    ensures
        r == (block@[type_flag_offset()] == 53u8),
{
    tar::Header::from_byte_slice(block).entry_type() == tar::EntryType::Directory
}

/// An entry of a tar stream, from its (already decoded) path, its size and
/// its 512-byte header block.
pub fn entry_from_tar_header(path: String, size: u64, block: &[u8]) -> (r: EntryInfo)
    requires
        block@.len() == 512,
    ensures
        r.path == path,
        r.size == size,
        r.kind == (if block@[type_flag_offset()] == 53u8 {
            EntryKind::Directory
        } else {
            EntryKind::File
        }),
        r.mode == tar_mode_of(block@.subrange(100, 108)),
{
    let kind = if tar_header_is_dir(block) {
        EntryKind::Directory
    } else {
        EntryKind::File
    };
    EntryInfo { path, kind, size, mode: tar_header_mode(block) }
}

} // verus!
