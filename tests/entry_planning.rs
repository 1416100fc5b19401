use untar::entry_path::{join_dir_exec, relative_parts};
use untar::error::ExtractError;
use untar::extract::{EntryAction, EntryInfo, EntryKind, Extraction};

fn file(path: &str, size: u64, mode: Option<u32>) -> EntryInfo {
    EntryInfo { path: path.to_string(), kind: EntryKind::File, size, mode }
}

fn dir(path: &str) -> EntryInfo {
    EntryInfo { path: path.to_string(), kind: EntryKind::Directory, size: 0, mode: None }
}

#[test]
fn relative_parts_normalise_and_refuse() {
    assert_eq!(
        relative_parts("a/b/c.txt"),
        Some(("a/b/c.txt".to_string(), Some("a/b".to_string())))
    );
    assert_eq!(relative_parts("./dir/"), Some(("dir".to_string(), Some(String::new()))));
    assert_eq!(relative_parts("a//./b"), Some(("a/b".to_string(), Some("a".to_string()))));
    assert_eq!(relative_parts("./"), Some((String::new(), None)));
    assert_eq!(relative_parts(""), Some((String::new(), None)));
    assert_eq!(relative_parts("../x"), None);
    assert_eq!(relative_parts("a/../../b"), None);
    assert_eq!(relative_parts("/etc/passwd"), None);
    assert_eq!(relative_parts("a/..b"), Some(("a/..b".to_string(), Some("a".to_string()))));
}

#[test]
fn joins_directory_and_path() {
    assert_eq!(join_dir_exec("out", "a/b"), "out/a/b");
    assert_eq!(join_dir_exec("out/", "a"), "out/a");
    assert_eq!(join_dir_exec("", "a"), "a");
    assert_eq!(join_dir_exec("out", ""), "out");
}

#[test]
fn sequential_run_prints_one_line_per_entry() {
    let mut x = Extraction::sequential("out".to_string(), true);
    assert_eq!(x.start_line(), None);
    let a = x.plan_entry(&dir("docs/")).ok().unwrap();
    assert_eq!(a.target, "out/docs");
    assert_eq!(a.parent, Some("out".to_string()));
    assert_eq!(a.action, EntryAction::MakeDir);
    assert_eq!(a.progress, Some("[1] docs/".to_string()));
    let b = x.plan_entry(&file("docs/readme.txt", 1536, Some(0o644))).ok().unwrap();
    assert_eq!(b.target, "out/docs/readme.txt");
    assert_eq!(b.parent, Some("out/docs".to_string()));
    assert_eq!(b.action, EntryAction::WriteFile { mode: Some(0o644) });
    assert_eq!(b.progress, Some("[2] docs/readme.txt (1.5 KB)".to_string()));
    assert_eq!(x.processed, 2);
    assert_eq!(x.finish_line(), Some("Total files: 2".to_string()));
}

#[test]
fn quiet_run_prints_nothing() {
    let mut x = Extraction::sequential("out".to_string(), false);
    let a = x.plan_entry(&file("f", 3, None)).ok().unwrap();
    assert_eq!(a.progress, None);
    assert_eq!(x.finish_line(), None);
}

#[test]
fn undeclared_parent_is_planned_before_file() {
    let mut x = Extraction::sequential("out".to_string(), false);
    let p = x.plan_entry(&file("x/y/z.txt", 1, None)).ok().unwrap();
    assert_eq!(p.parent, Some("out/x/y".to_string()));
    assert_eq!(p.target, "out/x/y/z.txt");
}

#[test]
fn permission_bits_pass_through_when_set() {
    let mut x = Extraction::sequential("out".to_string(), false);
    let p = x.plan_entry(&file("run.sh", 1, Some(0o755))).ok().unwrap();
    assert_eq!(p.action, EntryAction::WriteFile { mode: Some(0o755) });
    let q = x.plan_entry(&file("plain", 1, Some(0))).ok().unwrap();
    assert_eq!(q.action, EntryAction::WriteFile { mode: None });
    let r = x.plan_entry(&file("other", 1, None)).ok().unwrap();
    assert_eq!(r.action, EntryAction::WriteFile { mode: None });
}

#[test]
fn escaping_entries_are_refused_without_counting() {
    let mut x = Extraction::sequential("out".to_string(), true);
    x.plan_entry(&file("a", 1, None)).ok().unwrap();
    x.plan_entry(&file("b", 1, None)).ok().unwrap();
    match x.plan_entry(&file("../evil", 1, None)) {
        Err(ExtractError::UnsafeEntryPath { path }) => assert_eq!(path, "../evil"),
        _ => panic!("escaping path accepted"),
    }
    assert!(matches!(
        x.plan_entry(&file("/abs", 1, None)),
        Err(ExtractError::UnsafeEntryPath { .. })
    ));
    assert!(matches!(
        x.plan_entry(&file("./", 1, None)),
        Err(ExtractError::UnsafeEntryPath { .. })
    ));
    assert_eq!(x.processed, 2);
    assert_eq!(x.finish_line(), Some("Total files: 2".to_string()));
}

#[test]
fn replanning_gives_the_same_targets() {
    let mut first = Extraction::sequential("out".to_string(), false);
    let mut second = Extraction::sequential("out".to_string(), false);
    second.plan_entry(&dir("d")).ok().unwrap();
    let p = first.plan_entry(&file("d/f", 4, None)).ok().unwrap();
    let q = second.plan_entry(&file("d/f", 4, None)).ok().unwrap();
    assert_eq!(p.target, q.target);
    assert_eq!(p.parent, q.parent);
    assert_eq!(p.action, q.action);
}

#[test]
fn indexed_run_announces_total_up_front() {
    let mut x = Extraction::indexed("dest/".to_string(), true, 3);
    assert_eq!(x.start_line(), Some("Total files: 3".to_string()));
    let mut lines = 0;
    let entries = [dir("d/"), file("d/a.bin", 2048, None), file("top", 0, None)];
    for e in entries.iter() {
        assert!(x.has_room());
        let p = x.plan_entry(e).ok().unwrap();
        if p.progress.is_some() {
            lines += 1;
        }
    }
    assert_eq!(lines, 3);
    assert!(!x.has_room());
    assert_eq!(x.processed, 3);
    assert_eq!(x.finish_line(), None);
    let mut y = Extraction::indexed("dest/".to_string(), true, 1);
    let p = y.plan_entry(&file("d/a.bin", 2048, None)).ok().unwrap();
    assert_eq!(p.target, "dest/d/a.bin");
    assert_eq!(p.progress, Some("[1] d/a.bin (2.0 KB)".to_string()));
}
