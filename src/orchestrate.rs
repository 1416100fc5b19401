//! The top-level decisions of one extraction request: what decodes and reads
//! the archive, and the summary lines around it.
use vstd::prelude::*;

use crate::error::ExtractError;
use crate::extract::{codec_of, codec_spec, container_of, container_spec, Codec, ContainerKind};
use crate::format::{ascii_lower, all_ascii, detect_format, detection_of, lower_of};
use crate::text::{format_size, size_text};

verus! {

/// The decoder and container reader chosen for an archive.
#[derive(Clone, Copy, Debug, PartialEq, Eq, Structural)]
pub struct Dispatch {
    pub codec: Codec,
    pub container: ContainerKind,
}

/// The dispatch for an already lowercased name.
pub open spec fn dispatch_of(lowered: Seq<char>) -> Result<Dispatch, ExtractError> {
    match detection_of(lowered) {
        Ok(t) => Ok(Dispatch { codec: codec_spec(t), container: container_spec(t) }),
        Err(e) => Err(e),
    }
}

/// Chooses the decoder and container reader from the archive's file name.
pub fn dispatch(file_path: &str) -> (r: Result<Dispatch, ExtractError>)
    ensures
        r == dispatch_of(lower_of(file_path@)),
        all_ascii(file_path@) ==> r == dispatch_of(ascii_lower(file_path@)),
{
    match detect_format(file_path) {
        Ok(t) => Ok(Dispatch { codec: codec_of(t), container: container_of(t) }),
        Err(e) => Err(e),
    }
}

/// The verbose header: `Archive: <path>` and `Size: <size>`.
pub fn summary_lines(file_path: &str, size: u64) -> (r: Vec<String>)
    ensures
        r@.len() == 2,
        r@[0]@ == "Archive: "@ + file_path@,
        r@[1]@ == "Size: "@ + size_text(size as nat),
{
    let mut a = String::from_str("Archive: ");
    a.append(file_path);
    let mut b = String::from_str("Size: ");
    b.append(format_size(size).as_str());
    let mut r: Vec<String> = Vec::new();
    r.push(a);
    r.push(b);
    r
}

/// The verbose closing line: `Done: <path>`.
pub fn done_line(file_path: &str) -> (r: String)
    ensures
        r@ == "Done: "@ + file_path@,
{
    let mut s = String::from_str("Done: ");
    s.append(file_path);
    s
}

} // verus!
