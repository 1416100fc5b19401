//! The extraction engine's decisions: which codec and container a format
//! uses, and what to do on disk for each entry, step by step.
use vstd::prelude::*;

use crate::entry_path::{components, escapes, join_dir_exec, parent_of, relative_parts, target_of};
use crate::error::ExtractError;
use crate::format::FormatTag;
use crate::text::{dec, decimal, format_size, size_text};

verus! {

/// How entries are reached in a container.
#[derive(Clone, Copy, Debug, PartialEq, Eq, Structural)]
pub enum ContainerKind {
    /// An ordered, single-pass entry stream.
    Sequential,
    /// A table of entries reachable by index, with a known count.
    Indexed,
}

/// The decoder placed in front of the container reader.
#[derive(Clone, Copy, Debug, PartialEq, Eq, Structural)]
pub enum Codec {
    Identity,
    Gzip,
    Xz,
    Bzip2,
}

/// The decoder of each format.
pub open spec fn codec_spec(t: FormatTag) -> Codec {
    match t {
        FormatTag::Plain => Codec::Identity,
        FormatTag::GzipCompressed => Codec::Gzip,
        FormatTag::XzCompressed => Codec::Xz,
        FormatTag::Bzip2Compressed => Codec::Bzip2,
        FormatTag::Indexed => Codec::Identity,
    }
}

/// The container model of each format.
pub open spec fn container_spec(t: FormatTag) -> ContainerKind {
    match t {
        FormatTag::Indexed => ContainerKind::Indexed,
        _ => ContainerKind::Sequential,
    }
}

/// The decoder that a format needs.
pub fn codec_of(t: FormatTag) -> (r: Codec)
    ensures
        r == codec_spec(t),
{
    match t {
        FormatTag::Plain => Codec::Identity,
        FormatTag::GzipCompressed => Codec::Gzip,
        FormatTag::XzCompressed => Codec::Xz,
        FormatTag::Bzip2Compressed => Codec::Bzip2,
        FormatTag::Indexed => Codec::Identity,
    }
}

/// The container model that a format uses.
pub fn container_of(t: FormatTag) -> (r: ContainerKind)
    ensures
        r == container_spec(t),
{
    match t {
        FormatTag::Indexed => ContainerKind::Indexed,
        _ => ContainerKind::Sequential,
    }
}

/// What an entry materialises as.
#[derive(Clone, Copy, Debug, PartialEq, Eq, Structural)]
pub enum EntryKind {
    File,
    Directory,
}

/// One entry as the container reader presents it.
pub struct EntryInfo {
    /// The relative path as stored in the container (untrusted).
    pub path: String,
    pub kind: EntryKind,
    /// The declared size in bytes, used for reporting only.
    pub size: u64,
    /// Permission bits, where the container carries them.
    pub mode: Option<u32>,
}

/// What to do on disk for one entry, once its parent directory exists.
#[derive(Clone, Copy, Debug, PartialEq, Eq, Structural)]
pub enum EntryAction {
    /// Create the target directory if it is missing.
    MakeDir,
    /// Create or truncate the target file, copy the whole content stream into
    /// it, then try to apply `mode` (a failure there is only a warning).
    WriteFile { mode: Option<u32> },
}

/// The plan for one entry.
pub struct EntryPlan {
    /// Where the entry lands.
    pub target: String,
    /// The directory to create (with its ancestors) before the target, if missing.
    pub parent: Option<String>,
    pub action: EntryAction,
    /// The progress line to print, in verbose mode.
    pub progress: Option<String>,
}

/// The running state of one extraction.
pub struct Extraction {
    pub output_dir: String,
    pub verbose: bool,
    pub container: ContainerKind,
    /// Entries planned so far.
    pub processed: u64,
    /// The entry count announced by an indexed container (zero otherwise).
    pub total: u64,
}

/// An entry whose path escapes the output directory, or a file with no name.
pub open spec fn entry_refused(e: EntryInfo) -> bool {
    escapes(e.path@) || (e.kind == EntryKind::File && components(e.path@).len() == 0)
}

/// Permission bits worth applying: present and non-zero.
pub open spec fn mode_to_apply(m: Option<u32>) -> Option<u32> {
    match m {
        Some(b) => if b != 0 {
            Some(b)
        } else {
            None
        },
        None => None,
    }
}

/// Directories are created; files are written, with their permission bits.
pub open spec fn action_of(e: EntryInfo) -> EntryAction {
    match e.kind {
        EntryKind::Directory => EntryAction::MakeDir,
        EntryKind::File => EntryAction::WriteFile { mode: mode_to_apply(e.mode) },
    }
}

/// `[n] path`, and ` (size)` after a file's path.
pub open spec fn progress_text(n: nat, e: EntryInfo) -> Seq<char> {
    "["@ + dec(n) + "] "@ + e.path@ + match e.kind {
        EntryKind::Directory => Seq::<char>::empty(),
        EntryKind::File => " ("@ + size_text(e.size as nat) + ")"@,
    }
}

/// `Total files: n`.
pub open spec fn count_text(n: nat) -> Seq<char> {
    "Total files: "@ + dec(n)
}

/// One successful planning step from `pre` to `post`.
pub open spec fn planned(pre: Extraction, e: EntryInfo, p: EntryPlan, post: Extraction) -> bool {
    &&& pre.can_take()
    &&& !entry_refused(e)
    &&& post.output_dir == pre.output_dir
    &&& post.verbose == pre.verbose
    &&& post.container == pre.container
    &&& post.total == pre.total
    &&& post.processed == pre.processed + 1
    &&& p.target@ == target_of(pre.output_dir@, e.path@)
    &&& (p.parent is Some <==> parent_of(pre.output_dir@, e.path@) is Some)
    &&& (p.parent matches Some(d) ==> Some(d@) == parent_of(pre.output_dir@, e.path@))
    &&& p.action == action_of(e)
    &&& (p.progress is Some <==> pre.verbose)
    &&& (p.progress matches Some(l) ==> l@ == progress_text(post.processed as nat, e))
}

impl Extraction {
    /// An entry table is never read past its announced size.
    pub open spec fn wf(self) -> bool {
        self.container == ContainerKind::Indexed ==> self.processed <= self.total
    }

    /// Whether one more entry can be planned.
    pub open spec fn can_take(self) -> bool {
        match self.container {
            ContainerKind::Sequential => self.processed < u64::MAX,
            ContainerKind::Indexed => self.processed < self.total,
        }
    }

    /// A fresh extraction of an entry stream.
    pub fn sequential(output_dir: String, verbose: bool) -> (r: Extraction)
        ensures
            r.output_dir == output_dir,
            r.verbose == verbose,
            r.container == ContainerKind::Sequential,
            r.processed == 0,
            r.total == 0,
            r.wf(),
    {
        Extraction { output_dir, verbose, container: ContainerKind::Sequential, processed: 0, total: 0 }
    }

    /// A fresh extraction of an entry table holding `total` entries.
    pub fn indexed(output_dir: String, verbose: bool, total: u64) -> (r: Extraction)
        ensures
            r.output_dir == output_dir,
            r.verbose == verbose,
            r.container == ContainerKind::Indexed,
            r.processed == 0,
            r.total == total,
            r.wf(),
    {
        Extraction { output_dir, verbose, container: ContainerKind::Indexed, processed: 0, total }
    }

    /// Whether one more entry can be planned.
    pub fn has_room(&self) -> (r: bool)
        ensures
            r == self.can_take(),
    {
        match self.container {
            ContainerKind::Sequential => self.processed < u64::MAX,
            ContainerKind::Indexed => self.processed < self.total,
        }
    }

    /// The line printed before any entry: the table's size, for an indexed
    /// container in verbose mode.
    pub fn start_line(&self) -> (r: Option<String>)
        ensures
            (r is Some) <==> (self.verbose && self.container == ContainerKind::Indexed),
            r matches Some(l) ==> l@ == count_text(self.total as nat),
    {
        if self.verbose && self.container == ContainerKind::Indexed {
            Some(count_line(self.total))
        } else {
            None
        }
    }

    /// The line printed after the last entry: the number of entries, for an
    /// entry stream in verbose mode.
    pub fn finish_line(&self) -> (r: Option<String>)
        ensures
            (r is Some) <==> (self.verbose && self.container == ContainerKind::Sequential),
            r matches Some(l) ==> l@ == count_text(self.processed as nat),
    {
        if self.verbose && self.container == ContainerKind::Sequential {
            Some(count_line(self.processed))
        } else {
            None
        }
    }

    /// Plans the next entry: where it lands, which directory must exist first,
    /// what to write, and the progress line. An entry whose path escapes the
    /// output directory is refused and leaves the state as it was.
    pub fn plan_entry(&mut self, entry: &EntryInfo) -> (r: Result<EntryPlan, ExtractError>)
        requires
            old(self).can_take(),
        ensures
            old(self).wf() ==> final(self).wf(),
            entry_refused(*entry) <==> r is Err,
            r matches Ok(p) ==> planned(*old(self), *entry, p, *final(self)),
            r matches Err(e) ==> {
                &&& e matches ExtractError::UnsafeEntryPath { path }
                &&& path@ == entry.path@
                &&& *final(self) == *old(self)
            },
    {
        let parts = relative_parts(entry.path.as_str());
        let (rel, parent_rel) = match parts {
            None => {
                return Err(ExtractError::UnsafeEntryPath { path: entry.path.clone() });
            },
            Some(x) => x,
        };
        let is_dir = entry.kind == EntryKind::Directory;
        if !is_dir && parent_rel.is_none() {
            return Err(ExtractError::UnsafeEntryPath { path: entry.path.clone() });
        }
        let target = join_dir_exec(self.output_dir.as_str(), rel.as_str());
        let parent = match parent_rel {
            Some(p) => Some(join_dir_exec(self.output_dir.as_str(), p.as_str())),
            None => None,
        };
        let action = if is_dir {
            EntryAction::MakeDir
        } else {
            let mode = match entry.mode {
                Some(b) => if b != 0 {
                    Some(b)
                } else {
                    None
                },
                None => None,
            };
            EntryAction::WriteFile { mode }
        };
        self.processed = self.processed + 1;
        let progress = if self.verbose {
            Some(progress_line(self.processed, entry))
        } else {
            None
        };
        Ok(EntryPlan { target, parent, action, progress })
    }
}

/// `Total files: n`.
pub fn count_line(n: u64) -> (r: String)
    ensures
        r@ == count_text(n as nat),
{
    let mut s = String::from_str("Total files: ");
    s.append(decimal(n).as_str());
    s
}

/// The progress line of the `n`-th entry.
pub fn progress_line(n: u64, e: &EntryInfo) -> (r: String)
    ensures
        r@ == progress_text(n as nat, *e),
{
    let mut s = String::from_str("[");
    s.append(decimal(n).as_str());
    s.append("] ");
    s.append(e.path.as_str());
    let ghost head = s@;
    if e.kind == EntryKind::File {
        s.append(" (");
        s.append(format_size(e.size).as_str());
        s.append(")");
    } else {
        assert(s@ =~= head + Seq::<char>::empty());
    }
    s
}

/// A run of successful planning steps: `states[i]` plans `entries[i]` as
/// `plans[i]` and becomes `states[i + 1]`.
pub open spec fn is_run(entries: Seq<EntryInfo>, plans: Seq<EntryPlan>, states: Seq<Extraction>) -> bool {
    &&& states.len() == entries.len() + 1
    &&& plans.len() == entries.len()
    &&& forall|i: int|
        0 <= i < entries.len() ==> planned(#[trigger] states[i], entries[i], plans[i], states[i + 1])
}

/// How many plans carry a progress line.
pub open spec fn progress_count(plans: Seq<EntryPlan>) -> nat
    decreases plans.len(),
{
    if plans.len() == 0 {
        0
    } else {
        progress_count(plans.drop_last()) + if plans.last().progress is Some {
            1nat
        } else {
            0nat
        }
    }
}

/// In verbose mode a fresh extraction prints exactly one progress line per
/// entry, directories and files alike, and none otherwise; the count it ends
/// with is the number of entries. For an entry table that was read until no
/// entry was left, the count announced up front is that same number.
pub proof fn lemma_one_line_per_entry(
    entries: Seq<EntryInfo>,
    plans: Seq<EntryPlan>,
    states: Seq<Extraction>,
)
    requires
        is_run(entries, plans, states),
        states[0].processed == 0,
    ensures
        states.last().processed == entries.len(),
        states.last().verbose == states[0].verbose,
        states.last().container == states[0].container,
        states.last().total == states[0].total,
        states[0].verbose ==> progress_count(plans) == entries.len(),
        !states[0].verbose ==> progress_count(plans) == 0,
        states[0].container == ContainerKind::Indexed && !states.last().can_take()
            ==> states[0].total == entries.len(),
    decreases entries.len(),
{
    if entries.len() > 0 {
        let n = entries.len() - 1;
        let es = entries.drop_last();
        let ps = plans.drop_last();
        let ss = states.drop_last();
        assert forall|i: int| 0 <= i < es.len() implies planned(
            #[trigger] ss[i],
            es[i],
            ps[i],
            ss[i + 1],
        ) by {
            assert(planned(states[i], entries[i], plans[i], states[i + 1]));
        }
        lemma_one_line_per_entry(es, ps, ss);
        assert(planned(states[n], entries[n], plans[n], states[n + 1]));
        assert(ps =~= plans.drop_last());
    }
}

/// Planning an entry does not depend on anything found on disk: the same
/// entry under the same output directory is always sent to the same target,
/// with the same parent and the same action. A file is always created or
/// truncated, so a second extraction rewrites the same bytes.
pub proof fn lemma_plan_repeats(
    pre1: Extraction,
    post1: Extraction,
    p1: EntryPlan,
    pre2: Extraction,
    post2: Extraction,
    p2: EntryPlan,
    e: EntryInfo,
)
    requires
        planned(pre1, e, p1, post1),
        planned(pre2, e, p2, post2),
        pre1.output_dir@ == pre2.output_dir@,
    ensures
        p1.target@ == p2.target@,
        p1.parent is Some <==> p2.parent is Some,
        p1.parent is Some ==> p1.parent->0@ == p2.parent->0@,
        p1.action == p2.action,
        e.kind == EntryKind::File ==> p1.action is WriteFile,
{
}

} // verus!
