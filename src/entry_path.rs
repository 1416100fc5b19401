//! Resolution of an entry's stored path against the output directory.
use vstd::prelude::*;

verus! {

/// The pieces of `s` between `/` separators, left to right.
pub open spec fn split_slash(s: Seq<char>) -> Seq<Seq<char>>
    decreases s.len(),
{
    if s.len() == 0 {
        seq![Seq::empty()]
    } else {
        let prev = split_slash(s.drop_last());
        if s.last() == '/' {
            prev.push(Seq::empty())
        } else {
            prev.update(prev.len() - 1, prev.last().push(s.last()))
        }
    }
}

/// Whether a path piece names a real component (not empty, not `.`).
pub open spec fn is_named(c: Seq<char>) -> bool {
    c.len() > 0 && c != "."@
}

/// The named pieces, in order.
pub open spec fn kept(parts: Seq<Seq<char>>) -> Seq<Seq<char>>
    decreases parts.len(),
{
    if parts.len() == 0 {
        Seq::empty()
    } else if is_named(parts.last()) {
        kept(parts.drop_last()).push(parts.last())
    } else {
        kept(parts.drop_last())
    }
}

/// The pieces joined by `/`.
pub open spec fn join_slash(parts: Seq<Seq<char>>) -> Seq<char>
    decreases parts.len(),
{
    if parts.len() == 0 {
        Seq::empty()
    } else if parts.len() == 1 {
        parts[0]
    } else {
        join_slash(parts.drop_last()) + seq!['/'] + parts.last()
    }
}

/// A stored path is refused when it is absolute or has a `..` component.
pub open spec fn escapes(s: Seq<char>) -> bool {
    (s.len() > 0 && s[0] == '/') || split_slash(s).contains(".."@)
}

/// The named components of a stored path.
pub open spec fn components(s: Seq<char>) -> Seq<Seq<char>> {
    kept(split_slash(s))
}

/// A directory joined with a relative path, with one separator between.
pub open spec fn join_dir(dir: Seq<char>, rel: Seq<char>) -> Seq<char> {
    if rel.len() == 0 {
        dir
    } else if dir.len() == 0 || dir.last() == '/' {
        dir + rel
    } else {
        dir + seq!['/'] + rel
    }
}

/// Where an entry stored under `s` lands below `dir`.
pub open spec fn target_of(dir: Seq<char>, s: Seq<char>) -> Seq<char> {
    join_dir(dir, join_slash(components(s)))
}

/// The directory that holds the entry's target, if the entry is not `dir` itself.
pub open spec fn parent_of(dir: Seq<char>, s: Seq<char>) -> Option<Seq<char>> {
    if components(s).len() == 0 {
        None
    } else {
        Some(join_dir(dir, join_slash(components(s).drop_last())))
    }
}

proof fn lemma_split_nonempty(s: Seq<char>)
    ensures
        split_slash(s).len() >= 1,
    decreases s.len(),
{
    if s.len() > 0 {
        lemma_split_nonempty(s.drop_last());
    }
}

proof fn lemma_kept_named(parts: Seq<Seq<char>>)
    ensures
        forall|i: int| 0 <= i < kept(parts).len() ==> is_named(#[trigger] kept(parts)[i]),
    decreases parts.len(),
{
    if parts.len() > 0 {
        lemma_kept_named(parts.drop_last());
        let k = kept(parts.drop_last());
        if is_named(parts.last()) {
            assert forall|i: int| 0 <= i < kept(parts).len() implies is_named(
                #[trigger] kept(parts)[i],
            ) by {
                if i < k.len() {
                    assert(kept(parts)[i] == k[i]);
                }
            }
        }
    }
}

/// Whether the piece `s[start..i]` is `..`.
fn is_dot_dot(s: &str, start: usize, i: usize) -> (r: bool)
    requires
        start <= i <= s@.len(),
    ensures
        r == (s@.subrange(start as int, i as int) == ".."@),
{
    proof {
        reveal_strlit("..");
    }
    let ghost piece = s@.subrange(start as int, i as int);
    assert(".."@.len() == 2 && ".."@[0] == '.' && ".."@[1] == '.');
    if i - start != 2 {
        assert(piece.len() != ".."@.len());
        return false;
    }
    assert(piece[0] == s@[start as int] && piece[1] == s@[start + 1]);
    if s.get_char(start) == '.' && s.get_char(start + 1) == '.' {
        assert(piece =~= ".."@);
        true
    } else {
        false
    }
}

/// Whether the piece `s[start..i]` names a component.
fn is_named_piece(s: &str, start: usize, i: usize) -> (r: bool)
    requires
        start <= i <= s@.len(),
    ensures
        r == is_named(s@.subrange(start as int, i as int)),
{
    proof {
        reveal_strlit(".");
    }
    let ghost piece = s@.subrange(start as int, i as int);
    assert("."@.len() == 1 && "."@[0] == '.');
    if i == start {
        return false;
    }
    if i - start != 1 {
        assert(piece.len() != "."@.len());
        return true;
    }
    assert(piece[0] == s@[start as int]);
    if s.get_char(start) == '.' {
        assert(piece =~= "."@);
        false
    } else {
        true
    }
}

/// Splits a stored path into its named components: `None` when the path
/// escapes, else the relative path and the relative path of its parent
/// (`None` when there are no components).
pub fn relative_parts(s: &str) -> (r: Option<(String, Option<String>)>)
    ensures
        escapes(s@) <==> r is None,
        r matches Some((rel, par)) ==> {
            &&& rel@ == join_slash(components(s@))
            &&& (components(s@).len() == 0 <==> par is None)
            &&& (par matches Some(p) ==> p@ == join_slash(components(s@).drop_last()))
        },
{
    let n = s.unicode_len();
    if n > 0 && s.get_char(0) == '/' {
        return None;
    }
    let mut out = String::new();
    let mut prev = String::new();
    let mut count: usize = 0;
    let mut start: usize = 0;
    let mut bad = false;
    let mut i: usize = 0;
    let ghost mut done: Seq<Seq<char>> = Seq::empty();
    assert(s@.subrange(0, 0) =~= Seq::<char>::empty());
    loop
        invariant_except_break
            i <= n,
            start <= i,
            count <= start,
            split_slash(s@.subrange(0, i as int)) == done.push(s@.subrange(start as int, i as int)),
        invariant
            n == s@.len(),
            out@ == join_slash(kept(done)),
            count == kept(done).len(),
            count > 0 ==> prev@ == join_slash(kept(done).drop_last()),
            bad == done.contains(".."@),
        ensures
            split_slash(s@) == done,
        decreases n - i,
    {
        let at_end = i == n;
        if at_end || s.get_char(i) == '/' {
            let ghost piece = s@.subrange(start as int, i as int);
            let ghost old_done = done;
            proof {
                if i < n {
                    let t = s@.subrange(0, i + 1);
                    assert(t.drop_last() =~= s@.subrange(0, i as int));
                    assert(t.last() == '/');
                    assert(s@.subrange(i + 1, i + 1) =~= Seq::<char>::empty());
                } else {
                    assert(s@.subrange(0, n as int) =~= s@);
                }
                done = done.push(piece);
                assert(done.drop_last() =~= old_done);
                if !bad && piece == ".."@ {
                    assert(done[done.len() - 1] == ".."@);
                }
                if bad {
                    let j = choose|j: int| 0 <= j < old_done.len() && old_done[j] == ".."@;
                    assert(done[j] == ".."@);
                }
                if !bad && piece != ".."@ {
                    assert forall|j: int| 0 <= j < done.len() implies done[j] != ".."@ by {
                        if j < old_done.len() {
                            assert(done[j] == old_done[j]);
                        }
                    }
                }
            }
            if is_dot_dot(s, start, i) {
                bad = true;
            }
            if is_named_piece(s, start, i) {
                let piece_str = s.substring_char(start, i);
                proof {
                    assert(kept(done).drop_last() =~= kept(old_done));
                }
                prev = out.clone();
                if count > 0 {
                    out.append("/");
                    proof {
                        reveal_strlit("/");
                    }
                } else {
                    assert(kept(done) =~= seq![piece]);
                }
                out.append(piece_str);
                count = count + 1;
            }
            if at_end {
                break;
            }
            start = i + 1;
        } else {
            proof {
                let t = s@.subrange(0, i + 1);
                assert(t.drop_last() =~= s@.subrange(0, i as int));
                assert(t.last() == s@[i as int]);
                assert(s@.subrange(start as int, i + 1) =~= s@.subrange(start as int, i as int).push(
                    s@[i as int],
                ));
            }
        }
        i = i + 1;
    }
    if bad {
        None
    } else if count == 0 {
        Some((out, None))
    } else {
        Some((out, Some(prev)))
    }
}

/// Joins a directory and a relative path with one separator between.
pub fn join_dir_exec(dir: &str, rel: &str) -> (r: String)
    ensures
        r@ == join_dir(dir@, rel@),
{
    let mut r = String::from_str(dir);
    if rel.unicode_len() == 0 {
        return r;
    }
    let n = dir.unicode_len();
    if n > 0 && dir.get_char(n - 1) != '/' {
        r.append("/");
        proof {
            reveal_strlit("/");
        }
    }
    r.append(rel);
    r
}

/// Whether no piece holds a separator.
pub open spec fn slash_free(parts: Seq<Seq<char>>) -> bool {
    forall|i: int, j: int|
        0 <= i < parts.len() && 0 <= j < parts[i].len() ==> #[trigger] parts[i][j] != '/'
}

proof fn lemma_split_slash_free(s: Seq<char>)
    ensures
        slash_free(split_slash(s)),
    decreases s.len(),
{
    if s.len() > 0 {
        lemma_split_slash_free(s.drop_last());
        lemma_split_nonempty(s.drop_last());
        let prev = split_slash(s.drop_last());
        if s.last() != '/' {
            let cur = split_slash(s);
            assert forall|i: int, j: int| 0 <= i < cur.len() && 0 <= j < cur[i].len() implies #[trigger] cur[i][j] != '/' by {
                if i < prev.len() - 1 {
                    assert(cur[i] == prev[i]);
                } else if j < prev.last().len() {
                    assert(cur[i][j] == prev.last()[j]);
                }
            }
        } else {
            let cur = split_slash(s);
            assert forall|i: int, j: int| 0 <= i < cur.len() && 0 <= j < cur[i].len() implies #[trigger] cur[i][j] != '/' by {
                if i < prev.len() {
                    assert(cur[i] == prev[i]);
                }
            }
        }
    }
}

proof fn lemma_kept_slash_free(parts: Seq<Seq<char>>)
    requires
        slash_free(parts),
    ensures
        slash_free(kept(parts)),
    decreases parts.len(),
{
    if parts.len() > 0 {
        lemma_kept_slash_free(parts.drop_last());
        let k = kept(parts.drop_last());
        let cur = kept(parts);
        assert forall|i: int, j: int| 0 <= i < cur.len() && 0 <= j < cur[i].len() implies #[trigger] cur[i][j] != '/' by {
            if i < k.len() {
                assert(cur[i] == k[i]);
            } else {
                assert(cur[i] == parts[parts.len() - 1]);
            }
        }
    }
}

proof fn lemma_join_last(parts: Seq<Seq<char>>)
    requires
        parts.len() > 0,
        parts.last().len() > 0,
    ensures
        join_slash(parts).len() > 0,
        join_slash(parts).last() == parts.last().last(),
{
}

/// An entry's target lies directly inside its parent directory: the target is
/// the parent joined with the entry's last component, which is a plain name.
/// So creating the parent first is all a write of the target needs.
pub proof fn lemma_target_inside_parent(dir: Seq<char>, s: Seq<char>)
    requires
        components(s).len() > 0,
    ensures
        parent_of(dir, s) is Some,
        target_of(dir, s) == join_dir(parent_of(dir, s)->0, components(s).last()),
        is_named(components(s).last()),
        forall|j: int| 0 <= j < components(s).last().len() ==> components(s).last()[j] != '/',
{
    let k = components(s);
    let kn = k.drop_last();
    let c = k.last();
    lemma_kept_named(split_slash(s));
    lemma_split_slash_free(s);
    lemma_kept_slash_free(split_slash(s));
    assert(is_named(k[k.len() - 1]));
    assert forall|j: int| 0 <= j < c.len() implies c[j] != '/' by {
        assert(k[k.len() - 1][j] != '/');
    }
    if k.len() > 1 {
        assert(is_named(k[k.len() - 2]));
        assert(kn.last() == k[k.len() - 2]);
        lemma_join_last(kn);
        assert(kn.last()[kn.last().len() - 1] == k[k.len() - 2][kn.last().len() - 1]);
        let p = join_dir(dir, join_slash(kn));
        assert(join_slash(k) == join_slash(kn) + seq!['/'] + c);
        if dir.len() == 0 || dir.last() == '/' {
            assert(join_dir(dir, join_slash(k)) =~= p + seq!['/'] + c);
        } else {
            assert(join_dir(dir, join_slash(k)) =~= p + seq!['/'] + c);
        }
    } else {
        assert(join_slash(k) == c);
        assert(kn.len() == 0);
    }
}

proof fn lemma_kept_from(parts: Seq<Seq<char>>)
    ensures
        forall|i: int| 0 <= i < kept(parts).len() ==> parts.contains(#[trigger] kept(parts)[i]),
    decreases parts.len(),
{
    if parts.len() > 0 {
        let rest = parts.drop_last();
        lemma_kept_from(rest);
        let k = kept(rest);
        assert forall|i: int| 0 <= i < kept(parts).len() implies parts.contains(
            #[trigger] kept(parts)[i],
        ) by {
            if i < k.len() {
                assert(kept(parts)[i] == k[i]);
                let j = choose|j: int| 0 <= j < rest.len() && rest[j] == k[i];
                assert(parts[j] == rest[j]);
            } else {
                assert(kept(parts)[i] == parts[parts.len() - 1]);
            }
        }
    }
}

/// A path that is accepted never leaves the output directory: its target
/// begins with the directory, and none of its components is `..`.
pub proof fn lemma_target_stays_inside(dir: Seq<char>, s: Seq<char>)
    requires
        !escapes(s),
    ensures
        dir.len() <= target_of(dir, s).len(),
        target_of(dir, s).subrange(0, dir.len() as int) == dir,
        forall|i: int| 0 <= i < components(s).len() ==> #[trigger] components(s)[i] != ".."@,
{
    lemma_kept_from(split_slash(s));
    let t = target_of(dir, s);
    assert(t.subrange(0, dir.len() as int) =~= dir);
}

} // verus!
