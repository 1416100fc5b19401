use untar::error::ExtractError;
use untar::extract::{Codec, ContainerKind};
use untar::format::{detect_format, detect_format_lowered, FormatTag};
use untar::orchestrate::dispatch;

#[test]
fn detects_each_known_suffix() {
    assert_eq!(detect_format("a.tar.gz").ok(), Some(FormatTag::GzipCompressed));
    assert_eq!(detect_format("a.tgz").ok(), Some(FormatTag::GzipCompressed));
    assert_eq!(detect_format("a.tar.xz").ok(), Some(FormatTag::XzCompressed));
    assert_eq!(detect_format("a.tar.bz2").ok(), Some(FormatTag::Bzip2Compressed));
    assert_eq!(detect_format("a.zip").ok(), Some(FormatTag::Indexed));
    assert_eq!(detect_format("a.tar").ok(), Some(FormatTag::Plain));
    assert_eq!(detect_format("dir/nested.name.tar").ok(), Some(FormatTag::Plain));
}

#[test]
fn refuses_unknown_suffixes() {
    for name in ["a.rar", "a.7z", "archive", "a.gz", "a.tar.zst", ""] {
        assert!(matches!(detect_format(name), Err(ExtractError::UnsupportedFormat)), "{}", name);
    }
}

#[test]
fn detection_ignores_letter_case() {
    assert_eq!(detect_format("ARCHIVE.TAR.GZ").ok(), Some(FormatTag::GzipCompressed));
    assert_eq!(
        detect_format("ARCHIVE.TAR.GZ").ok(),
        detect_format("archive.tar.gz").ok()
    );
    assert_eq!(detect_format("Pack.Zip").ok(), Some(FormatTag::Indexed));
    assert_eq!(detect_format("x.TaR.Bz2").ok(), Some(FormatTag::Bzip2Compressed));
}

#[test]
fn lowered_detection_is_case_sensitive() {
    assert!(matches!(detect_format_lowered("A.TAR"), Err(ExtractError::UnsupportedFormat)));
    assert_eq!(detect_format_lowered("a.tar").ok(), Some(FormatTag::Plain));
}

#[test]
fn dispatch_pairs_codec_and_container() {
    let d = dispatch("a.TGZ").ok().unwrap();
    assert_eq!(d.codec, Codec::Gzip);
    assert_eq!(d.container, ContainerKind::Sequential);
    let d = dispatch("a.tar.xz").ok().unwrap();
    assert_eq!(d.codec, Codec::Xz);
    let d = dispatch("a.tar.bz2").ok().unwrap();
    assert_eq!(d.codec, Codec::Bzip2);
    let d = dispatch("a.tar").ok().unwrap();
    assert_eq!(d.codec, Codec::Identity);
    assert_eq!(d.container, ContainerKind::Sequential);
    let d = dispatch("a.zip").ok().unwrap();
    assert_eq!(d.codec, Codec::Identity);
    assert_eq!(d.container, ContainerKind::Indexed);
    assert!(matches!(dispatch("a.rar"), Err(ExtractError::UnsupportedFormat)));
}
