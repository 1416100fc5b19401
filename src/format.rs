//! Archive format detection from the file name's suffix.
use vstd::prelude::*;

use crate::error::ExtractError;

verus! {

/// The container/codec combination of an archive.
#[derive(Clone, Copy, Debug, PartialEq, Eq, Structural)]
pub enum FormatTag {
    Plain,
    GzipCompressed,
    XzCompressed,
    Bzip2Compressed,
    Indexed,
}

/// What `str::to_lowercase` returns for a string.
pub uninterp spec fn lower_of(s: Seq<char>) -> Seq<char>;

/// ASCII lowering of one character.
pub open spec fn ascii_lower_char(c: char) -> char {
    if 'A' <= c && c <= 'Z' {
        ((c as u8) + 32u8) as char
    } else {
        c
    }
}

/// ASCII lowering of a string, character by character.
pub open spec fn ascii_lower(s: Seq<char>) -> Seq<char> {
    Seq::new(s.len(), |i: int| ascii_lower_char(s[i]))
}

/// Whether every character of `s` is ASCII.
pub open spec fn all_ascii(s: Seq<char>) -> bool {
    forall|i: int| 0 <= i < s.len() ==> (s[i] as u32) < 128
}

/// Relies on `str::to_lowercase`: the Unicode lowercase mapping of the
/// characters, which on ASCII text is plain ASCII lowering.
#[verifier::external_body]
fn lowercase(s: &str) -> (r: String)
    ensures
        r@ == lower_of(s@),
        all_ascii(s@) ==> r@ == ascii_lower(s@),
{
    s.to_lowercase()
}

/// Whether `s` ends with `suf`.
pub open spec fn has_suffix(s: Seq<char>, suf: Seq<char>) -> bool {
    suf.len() <= s.len() && s.subrange(s.len() - suf.len(), s.len() as int) == suf
}

/// The format of an already lowercased name: the first rule that matches, in order.
pub open spec fn format_of(s: Seq<char>) -> Option<FormatTag> {
    if has_suffix(s, ".tar.gz"@) || has_suffix(s, ".tgz"@) {
        Some(FormatTag::GzipCompressed)
    } else if has_suffix(s, ".tar.xz"@) {
        Some(FormatTag::XzCompressed)
    } else if has_suffix(s, ".tar.bz2"@) {
        Some(FormatTag::Bzip2Compressed)
    } else if has_suffix(s, ".zip"@) {
        Some(FormatTag::Indexed)
    } else if has_suffix(s, ".tar"@) {
        Some(FormatTag::Plain)
    } else {
        None
    }
}

/// The result that detection gives for a lowercased name.
pub open spec fn detection_of(s: Seq<char>) -> Result<FormatTag, ExtractError> {
    match format_of(s) {
        Some(t) => Ok(t),
        None => Err(ExtractError::UnsupportedFormat),
    }
}

fn ends_with(s: &str, suf: &str) -> (r: bool)
    ensures
        r == has_suffix(s@, suf@),
{
    let n = s.unicode_len();
    let m = suf.unicode_len();
    if m > n {
        return false;
    }
    let off: usize = n - m;
    let mut i: usize = 0;
    while i < m
        invariant
            n == s@.len(),
            m == suf@.len(),
            m <= n,
            off == n - m,
            i <= m,
            forall|j: int| 0 <= j < i ==> s@[off + j] == suf@[j],
        decreases m - i,
    {
        if s.get_char(off + i) != suf.get_char(i) {
            assert(s@.subrange(off as int, n as int)[i as int] != suf@[i as int]);
            return false;
        }
        i = i + 1;
    }
    assert(s@.subrange(off as int, n as int) =~= suf@);
    true
}

/// Detects the format of a name that is already lowercased.
pub fn detect_format_lowered(name: &str) -> (r: Result<FormatTag, ExtractError>)
    ensures
        r == detection_of(name@),
{
    if ends_with(name, ".tar.gz") || ends_with(name, ".tgz") {
        Ok(FormatTag::GzipCompressed)
    } else if ends_with(name, ".tar.xz") {
        Ok(FormatTag::XzCompressed)
    } else if ends_with(name, ".tar.bz2") {
        Ok(FormatTag::Bzip2Compressed)
    } else if ends_with(name, ".zip") {
        Ok(FormatTag::Indexed)
    } else if ends_with(name, ".tar") {
        Ok(FormatTag::Plain)
    } else {
        Err(ExtractError::UnsupportedFormat)
    }
}

/// Detects the format of an archive from its file name, ignoring letter case.
pub fn detect_format(file_name: &str) -> (r: Result<FormatTag, ExtractError>)
    ensures
        r == detection_of(lower_of(file_name@)),
        all_ascii(file_name@) ==> r == detection_of(ascii_lower(file_name@)),
{
    let lower = lowercase(file_name);
    detect_format_lowered(lower.as_str())
}

/// ASCII uppercasing of one character.
pub open spec fn ascii_upper_char(c: char) -> char {
    if 'a' <= c && c <= 'z' {
        ((c as u8) - 32u8) as char
    } else {
        c
    }
}

/// ASCII uppercasing of a string, character by character.
pub open spec fn ascii_upper(s: Seq<char>) -> Seq<char> {
    Seq::new(s.len(), |i: int| ascii_upper_char(s[i]))
}

proof fn lemma_suffix_chars(s: Seq<char>, y: Seq<char>, k: int)
    requires
        has_suffix(s, y),
        0 <= k < y.len(),
    ensures
        s[s.len() - 1 - k] == y[y.len() - 1 - k],
{
    assert(s.subrange(s.len() - y.len(), s.len() as int)[y.len() - 1 - k] == s[s.len() - 1 - k]);
}

proof fn lemma_concat_suffix(stem: Seq<char>, x: Seq<char>)
    ensures
        has_suffix(stem + x, x),
{
    let s = stem + x;
    assert(s.subrange(s.len() - x.len(), s.len() as int) =~= x);
}

/// Every name that ends in a known suffix is detected as that suffix's
/// format: `.tar.gz` and `.tgz` as gzip, `.tar.xz` as xz, `.tar.bz2` as
/// bzip2, `.zip` as indexed and `.tar` as plain; a name that ends in none of
/// them is refused as unsupported.
pub proof fn lemma_known_suffixes(stem: Seq<char>, name: Seq<char>)
    ensures
        detection_of(stem + ".tar.gz"@) == Ok::<FormatTag, ExtractError>(FormatTag::GzipCompressed),
        detection_of(stem + ".tgz"@) == Ok::<FormatTag, ExtractError>(FormatTag::GzipCompressed),
        detection_of(stem + ".tar.xz"@) == Ok::<FormatTag, ExtractError>(FormatTag::XzCompressed),
        detection_of(stem + ".tar.bz2"@) == Ok::<FormatTag, ExtractError>(FormatTag::Bzip2Compressed),
        detection_of(stem + ".zip"@) == Ok::<FormatTag, ExtractError>(FormatTag::Indexed),
        detection_of(stem + ".tar"@) == Ok::<FormatTag, ExtractError>(FormatTag::Plain),
        !has_suffix(name, ".tar.gz"@) && !has_suffix(name, ".tgz"@) && !has_suffix(name, ".tar.xz"@)
            && !has_suffix(name, ".tar.bz2"@) && !has_suffix(name, ".zip"@) && !has_suffix(
            name,
            ".tar"@,
        ) ==> detection_of(name) == Err::<FormatTag, ExtractError>(ExtractError::UnsupportedFormat),
{
    reveal_strlit(".tar.gz");
    reveal_strlit(".tgz");
    reveal_strlit(".tar.xz");
    reveal_strlit(".tar.bz2");
    reveal_strlit(".zip");
    reveal_strlit(".tar");
    let suffixes = seq![".tar.gz"@, ".tgz"@, ".tar.xz"@, ".tar.bz2"@, ".zip"@, ".tar"@];
    assert forall|i: int, j: int|
        0 <= i < j < 6 && j >= 2 implies !has_suffix(
            stem + #[trigger] suffixes[j],
            #[trigger] suffixes[i],
        ) by {
        let s = stem + suffixes[j];
        lemma_concat_suffix(stem, suffixes[j]);
        if has_suffix(s, suffixes[i]) {
            lemma_suffix_chars(s, suffixes[i], 0);
            lemma_suffix_chars(s, suffixes[j], 0);
            lemma_suffix_chars(s, suffixes[i], 1);
            lemma_suffix_chars(s, suffixes[j], 1);
        }
    }
    lemma_concat_suffix(stem, ".tar.gz"@);
    lemma_concat_suffix(stem, ".tgz"@);
    lemma_concat_suffix(stem, ".tar.xz"@);
    lemma_concat_suffix(stem, ".tar.bz2"@);
    lemma_concat_suffix(stem, ".zip"@);
    lemma_concat_suffix(stem, ".tar"@);
    assert(suffixes[0] == ".tar.gz"@ && suffixes[1] == ".tgz"@ && suffixes[2] == ".tar.xz"@);
    assert(suffixes[3] == ".tar.bz2"@ && suffixes[4] == ".zip"@ && suffixes[5] == ".tar"@);
}

/// Letter case does not matter: an ASCII name written in capitals is detected
/// exactly as the same name in lower case.
pub proof fn lemma_case_insensitive(name: Seq<char>)
    requires
        all_ascii(name),
    ensures
        all_ascii(ascii_upper(name)),
        detection_of(ascii_lower(ascii_upper(name))) == detection_of(ascii_lower(name)),
{
    let up = ascii_upper(name);
    assert forall|i: int| 0 <= i < up.len() implies (up[i] as u32) < 128 by {
        let c = name[i];
        if 'a' <= c && c <= 'z' {
            assert((c as u8) - 32u8 < 128u8);
        }
    }
    assert forall|i: int| 0 <= i < name.len() implies #[trigger] ascii_lower(up)[i] == ascii_lower(
        name,
    )[i] by {
        let c = name[i];
        assert(up[i] == ascii_upper_char(c));
    }
    assert(ascii_lower(up) =~= ascii_lower(name));
}

} // verus!
