use untar::extract::{EntryAction, EntryKind, Extraction};
use untar::header::entry_from_tar_header;

#[test]
fn reads_directory_flag_and_mode() {
    let mut h = tar::Header::new_gnu();
    h.set_entry_type(tar::EntryType::Directory);
    h.set_mode(0o755);
    let e = entry_from_tar_header("d/".to_string(), 0, h.as_bytes());
    assert_eq!(e.kind, EntryKind::Directory);
    assert_eq!(e.mode, Some(0o755));
    assert_eq!(e.path, "d/");
}

#[test]
fn regular_file_with_mode_is_planned_with_its_bits() {
    let mut h = tar::Header::new_gnu();
    h.set_entry_type(tar::EntryType::Regular);
    h.set_mode(0o755);
    h.set_size(12);
    let e = entry_from_tar_header("bin/run".to_string(), 12, h.as_bytes());
    assert_eq!(e.kind, EntryKind::File);
    assert_eq!(e.size, 12);
    let mut x = Extraction::sequential("o".to_string(), false);
    let p = x.plan_entry(&e).ok().unwrap();
    assert_eq!(p.action, EntryAction::WriteFile { mode: Some(0o755) });
}

#[test]
fn zero_or_garbled_mode_leaves_permissions_alone() {
    let mut h = tar::Header::new_gnu();
    h.set_entry_type(tar::EntryType::Regular);
    h.set_mode(0);
    let e = entry_from_tar_header("f".to_string(), 0, h.as_bytes());
    assert_eq!(e.mode, Some(0));
    let mut x = Extraction::sequential("o".to_string(), false);
    assert_eq!(x.plan_entry(&e).ok().unwrap().action, EntryAction::WriteFile { mode: None });
    let mut bytes = *h.as_bytes();
    for b in bytes[100..108].iter_mut() {
        *b = b'z';
    }
    let g = entry_from_tar_header("g".to_string(), 0, &bytes);
    assert_eq!(g.mode, None);
    assert_eq!(x.plan_entry(&g).ok().unwrap().action, EntryAction::WriteFile { mode: None });
}

#[test]
fn symlink_and_other_types_are_files() {
    let mut h = tar::Header::new_gnu();
    h.set_entry_type(tar::EntryType::Symlink);
    let e = entry_from_tar_header("l".to_string(), 0, h.as_bytes());
    assert_eq!(e.kind, EntryKind::File);
}
