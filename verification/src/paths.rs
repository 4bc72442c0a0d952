//! Lexical path handling for the render guard: splitting Unix paths into segments,
//! absolutizing against a working directory, folding `.` / `..`, and checking that a
//! rendered path stays inside the project root. The file system is never consulted, so a
//! planted symlink cannot widen the check.

use vstd::prelude::*;

use crate::error::Error;
use crate::text::{chars_eq, chars_of, concat, copy_chars, owned, push_char, string_from_chars};

verus! {

/// A path segment after `.` segments and empty segments are dropped.
pub enum Seg {
    Root,
    Parent,
    Name(Seq<char>),
}

/// Executable path segment.
#[derive(Debug, Clone)]
pub enum PathSeg {
    Root,
    Parent,
    Name(Vec<char>),
}

pub open spec fn seg_view(s: PathSeg) -> Seg {
    match s {
        PathSeg::Root => Seg::Root,
        PathSeg::Parent => Seg::Parent,
        PathSeg::Name(n) => Seg::Name(n@),
    }
}

pub open spec fn segs_view(v: Seq<PathSeg>) -> Seq<Seg> {
    v.map_values(|s: PathSeg| seg_view(s))
}

/// The characters before the first `/` (all of them when there is none).
pub open spec fn until_slash(s: Seq<char>) -> Seq<char>
    decreases s.len(),
{
    if s.len() == 0 || s[0] == '/' {
        seq![]
    } else {
        seq![s[0]] + until_slash(s.drop_first())
    }
}

proof fn lemma_until_slash_at(s: Seq<char>, n: int)
    requires
        0 <= n <= s.len(),
        forall|k: int| 0 <= k < n ==> s[k] != '/',
        n == s.len() || s[n] == '/',
    ensures
        until_slash(s) == s.take(n),
    decreases n,
{
    if n == 0 {
        assert(s.take(0) =~= seq![]);
    } else {
        lemma_until_slash_at(s.drop_first(), n - 1);
        assert(seq![s[0]] + s.drop_first().take(n - 1) =~= s.take(n));
    }
}

/// The segment a `/`-free field stands for: none for `` and `.`, a parent step for `..`.
pub open spec fn field_segs(f: Seq<char>) -> Seq<Seg> {
    if f.len() == 0 || f =~= seq!['.'] {
        seq![]
    } else if f =~= seq!['.', '.'] {
        seq![Seg::Parent]
    } else {
        seq![Seg::Name(f)]
    }
}

/// The segments of a path without its leading root: split at `/`, empty and `.` fields
/// dropped, `..` a parent step.
pub open spec fn rel_segments(p: Seq<char>) -> Seq<Seg>
    decreases p.len(),
{
    let f = until_slash(p);
    if f.len() >= p.len() {
        field_segs(f)
    } else {
        field_segs(f) + rel_segments(p.skip(f.len() as int + 1))
    }
}

/// The segments of a Unix path as `Path::components` yields them, with the `.` segments
/// (which lexical normalization discards anyway) left out.
pub open spec fn path_segments(p: Seq<char>) -> Seq<Seg> {
    if p.len() > 0 && p[0] == '/' {
        seq![Seg::Root] + rel_segments(p.drop_first())
    } else {
        rel_segments(p)
    }
}

/// `p` made absolute against the working directory `cwd` (`cwd.join(p)`), as segments.
pub open spec fn absolute_segments(p: Seq<char>, cwd: Seq<char>) -> Seq<Seg> {
    if p.len() > 0 && p[0] == '/' {
        path_segments(p)
    } else {
        path_segments(cwd) + path_segments(p)
    }
}

/// One folding step: `..` drops the last segment unless at the root (or nothing is left),
/// anything else is appended.
pub open spec fn norm_step(acc: Seq<Seg>, s: Seg) -> Seq<Seg> {
    match s {
        Seg::Parent => if acc.len() == 0 || acc.last() == Seg::Root {
            acc
        } else {
            acc.drop_last()
        },
        _ => acc.push(s),
    }
}

/// Folds `..` steps from left to right.
pub open spec fn normalize_segs(s: Seq<Seg>) -> Seq<Seg>
    decreases s.len(),
{
    if s.len() == 0 {
        seq![]
    } else {
        norm_step(normalize_segs(s.drop_last()), s.last())
    }
}

/// `path` absolutized against `cwd` with `.` and `..` folded lexically.
pub open spec fn normalized(path: Seq<char>, cwd: Seq<char>) -> Seq<Seg> {
    normalize_segs(absolute_segments(path, cwd))
}

/// The text of the path that a list of segments builds (`PathBuf` pushes).
pub open spec fn segs_text(s: Seq<Seg>) -> Seq<char>
    decreases s.len(),
{
    if s.len() == 0 {
        seq![]
    } else {
        let t = segs_text(s.drop_last());
        let n = match s.last() {
            Seg::Root => seq!['/'],
            Seg::Parent => seq!['.', '.'],
            Seg::Name(n) => n,
        };
        if s.last() == Seg::Root {
            seq!['/']
        } else if t.len() == 0 {
            n
        } else if t.last() == '/' {
            t + n
        } else {
            t + seq!['/'] + n
        }
    }
}

/// `prefix` is a leading run of `s`, segment by segment (`Path::starts_with`).
pub open spec fn is_seg_prefix(prefix: Seq<Seg>, s: Seq<Seg>) -> bool {
    prefix.len() <= s.len() && s.take(prefix.len() as int) == prefix
}

/// The guard accepts: `candidate` resolves inside `root`.
pub open spec fn within_root(candidate: Seq<char>, root: Seq<char>, cwd: Seq<char>) -> bool {
    is_seg_prefix(normalized(root, cwd), normalized(candidate, cwd))
}

/// The refusal message for a candidate outside the root.
pub open spec fn outside_root_message(candidate: Seq<char>, root: Seq<char>, cwd: Seq<char>) -> Seq<
    char,
> {
    "rendered path "@ + segs_text(normalized(candidate, cwd)) + " resolves outside the target "@
        + segs_text(normalized(root, cwd))
}

fn push_field(out: &mut Vec<PathSeg>, cs: &Vec<char>, i: usize, j: usize)
    requires
        i <= j <= cs.len(),
    ensures
        segs_view(final(out)@) == segs_view(old(out)@) + field_segs(cs@.subrange(i as int, j as int)),
{
    let mut f: Vec<char> = Vec::new();
    let mut k: usize = i;
    while k < j
        invariant
            i <= k <= j,
            j <= cs.len(),
            f@ == cs@.subrange(i as int, k as int),
        decreases j - k,
    {
        f.push(cs[k]);
        assert(f@ =~= cs@.subrange(i as int, k + 1));
        k = k + 1;
    }
    let ghost fv = f@;
    let ghost start = out@;
    proof {
        if fv.len() == 1 && fv[0] == '.' {
            assert(fv =~= seq!['.']);
        }
        if fv.len() == 2 && fv[0] == '.' && fv[1] == '.' {
            assert(fv =~= seq!['.', '.']);
        }
        if fv =~= seq!['.'] {
            assert(fv.len() == 1 && fv[0] == '.');
        }
        if fv =~= seq!['.', '.'] {
            assert(fv.len() == 2 && fv[0] == '.' && fv[1] == '.');
        }
    }
    if f.len() == 0 || (f.len() == 1 && f[0] == '.') {
        assert(segs_view(out@) =~= segs_view(start) + field_segs(fv));
    } else if f.len() == 2 && f[0] == '.' && f[1] == '.' {
        out.push(PathSeg::Parent);
        assert(segs_view(out@) =~= segs_view(start) + field_segs(fv));
    } else {
        out.push(PathSeg::Name(f));
        assert(segs_view(out@) =~= segs_view(start) + field_segs(fv));
    }
}

/// The segments of `cs[start..]` (see [`rel_segments`]), appended to `out`.
fn push_rel_segments(out: &mut Vec<PathSeg>, cs: &Vec<char>, start: usize)
    requires
        start <= cs.len(),
    ensures
        segs_view(final(out)@) == segs_view(old(out)@) + rel_segments(cs@.skip(start as int)),
{
    let ghost base = segs_view(out@);
    let mut i: usize = start;
    let mut done = false;
    while !done
        invariant
            start <= i <= cs.len(),
            !done ==> base + rel_segments(cs@.skip(start as int)) == segs_view(out@)
                + rel_segments(cs@.skip(i as int)),
            done ==> base + rel_segments(cs@.skip(start as int)) == segs_view(out@),
        decreases cs.len() - i + (if done { 0int } else { 1int }),
    {
        let mut j: usize = i;
        while j < cs.len() && cs[j] != '/'
            invariant
                i <= j <= cs.len(),
                forall|k: int| i <= k < j ==> cs@[k] != '/',
            decreases cs.len() - j,
        {
            j = j + 1;
        }
        let ghost rest = cs@.skip(i as int);
        proof {
            lemma_until_slash_at(rest, j - i);
            assert(rest.take(j - i) =~= cs@.subrange(i as int, j as int));
        }
        let ghost before = segs_view(out@);
        push_field(out, cs, i, j);
        if j >= cs.len() {
            assert(before + rel_segments(rest) =~= segs_view(out@));
            done = true;
        } else {
            assert(rest.skip(j - i + 1) =~= cs@.skip(j + 1));
            assert(before + rel_segments(rest) =~= segs_view(out@) + rel_segments(cs@.skip(j + 1)));
            i = j + 1;
        }
    }
}

/// The segments of a Unix path (see [`path_segments`]).
pub fn path_segments_of(p: &str) -> (res: Vec<PathSeg>)
    ensures
        segs_view(res@) == path_segments(p@),
{
    let cs = chars_of(p);
    let mut out: Vec<PathSeg> = Vec::new();
    assert(segs_view(out@) =~= seq![]);
    if cs.len() > 0 && cs[0] == '/' {
        out.push(PathSeg::Root);
        assert(segs_view(out@) =~= seq![Seg::Root]);
        push_rel_segments(&mut out, &cs, 1);
        assert(cs@.skip(1) =~= p@.drop_first());
    } else {
        push_rel_segments(&mut out, &cs, 0);
        assert(cs@.skip(0) =~= p@);
        assert(seq![] + rel_segments(p@) =~= rel_segments(p@));
    }
    out
}

fn copy_seg(s: &PathSeg) -> (res: PathSeg)
    ensures
        seg_view(res) == seg_view(*s),
{
    match s {
        PathSeg::Root => PathSeg::Root,
        PathSeg::Parent => PathSeg::Parent,
        PathSeg::Name(n) => PathSeg::Name(copy_chars(n)),
    }
}

/// `path` made absolute against `cwd`, as segments.
fn absolute_segments_of(path: &str, cwd: &str) -> (res: Vec<PathSeg>)
    ensures
        segs_view(res@) == absolute_segments(path@, cwd@),
{
    let is_absolute = {
        let cs = chars_of(path);
        cs.len() > 0 && cs[0] == '/'
    };
    if is_absolute {
        path_segments_of(path)
    } else {
        let mut base = path_segments_of(cwd);
        let mut rel = path_segments_of(path);
        let ghost b = base@;
        let ghost r = rel@;
        base.append(&mut rel);
        assert(segs_view(base@) =~= segs_view(b) + segs_view(r));
        base
    }
}

/// Folds `.`/`..` of a segment list (see [`normalize_segs`]).
fn normalize_segs_of(segs: &Vec<PathSeg>) -> (res: Vec<PathSeg>)
    ensures
        segs_view(res@) == normalize_segs(segs_view(segs@)),
{
    let mut acc: Vec<PathSeg> = Vec::new();
    let mut i: usize = 0;
    assert(segs_view(segs@).take(0) =~= seq![]);
    assert(segs_view(acc@) =~= seq![]);
    while i < segs.len()
        invariant
            i <= segs.len(),
            segs_view(acc@) == normalize_segs(segs_view(segs@).take(i as int)),
        decreases segs.len() - i,
    {
        let ghost sv = segs_view(segs@);
        let ghost prev = segs_view(acc@);
        assert(sv.take(i + 1).drop_last() =~= sv.take(i as int));
        assert(sv.take(i + 1).last() == seg_view(segs@[i as int]));
        match &segs[i] {
            PathSeg::Parent => {
                let at_top = acc.len() == 0 || match &acc[acc.len() - 1] {
                    PathSeg::Root => true,
                    _ => false,
                };
                if !at_top {
                    acc.pop();
                    assert(segs_view(acc@) =~= prev.drop_last());
                } else {
                    proof {
                        if prev.len() > 0 {
                            assert(prev.last() == seg_view(acc@[acc@.len() - 1]));
                        }
                    }
                }
            },
            other => {
                acc.push(copy_seg(other));
                assert(segs_view(acc@) =~= prev.push(seg_view(segs@[i as int])));
            },
        }
        i = i + 1;
    }
    assert(segs_view(segs@).take(segs.len() as int) =~= segs_view(segs@));
    acc
}

/// Whether two segments are equal.
fn seg_eq(a: &PathSeg, b: &PathSeg) -> (res: bool)
    ensures
        res == (seg_view(*a) == seg_view(*b)),
{
    match (a, b) {
        (PathSeg::Root, PathSeg::Root) => true,
        (PathSeg::Parent, PathSeg::Parent) => true,
        (PathSeg::Name(x), PathSeg::Name(y)) => chars_eq(x, y),
        _ => false,
    }
}

/// Whether `prefix` is a leading run of `s`.
fn seg_prefix(prefix: &Vec<PathSeg>, s: &Vec<PathSeg>) -> (res: bool)
    ensures
        res == is_seg_prefix(segs_view(prefix@), segs_view(s@)),
{
    if prefix.len() > s.len() {
        return false;
    }
    let mut i: usize = 0;
    while i < prefix.len()
        invariant
            i <= prefix.len() <= s.len(),
            forall|j: int| 0 <= j < i ==> seg_view(#[trigger] prefix@[j]) == seg_view(s@[j]),
        decreases prefix.len() - i,
    {
        if !seg_eq(&prefix[i], &s[i]) {
            assert(segs_view(s@).take(prefix.len() as int)[i as int] != segs_view(prefix@)[i as int]);
            return false;
        }
        i = i + 1;
    }
    assert(segs_view(s@).take(prefix.len() as int) =~= segs_view(prefix@));
    true
}

/// The text of a segment list (see [`segs_text`]).
fn segs_text_of(s: &Vec<PathSeg>) -> (res: String)
    ensures
        res@ == segs_text(segs_view(s@)),
{
    let mut out = String::new();
    let mut i: usize = 0;
    assert(segs_view(s@).take(0) =~= seq![]);
    while i < s.len()
        invariant
            i <= s.len(),
            out@ == segs_text(segs_view(s@).take(i as int)),
        decreases s.len() - i,
    {
        let ghost sv = segs_view(s@);
        assert(sv.take(i + 1).drop_last() =~= sv.take(i as int));
        assert(sv.take(i + 1).last() == seg_view(s@[i as int]));
        let ghost t = out@;
        match &s[i] {
            PathSeg::Root => {
                out = String::new();
                push_char(&mut out, '/');
                assert(out@ =~= seq!['/']);
            },
            PathSeg::Parent => {
                let cs = chars_of(out.as_str());
                let empty = cs.len() == 0;
                let ends_slash = cs.len() > 0 && cs[cs.len() - 1] == '/';
                if !empty && !ends_slash {
                    push_char(&mut out, '/');
                }
                push_char(&mut out, '.');
                push_char(&mut out, '.');
                assert(out@ =~= segs_text(sv.take(i + 1)));
            },
            PathSeg::Name(n) => {
                let cs = chars_of(out.as_str());
                let empty = cs.len() == 0;
                let ends_slash = cs.len() > 0 && cs[cs.len() - 1] == '/';
                if !empty && !ends_slash {
                    push_char(&mut out, '/');
                }
                let name = string_from_chars(n);
                let joined = concat(out.as_str(), name.as_str());
                out = joined;
                assert(out@ =~= segs_text(sv.take(i + 1)));
            },
        }
        i = i + 1;
    }
    assert(segs_view(s@).take(s.len() as int) =~= segs_view(s@));
    out
}

/// Make `path` absolute relative to the working directory `cwd` (without touching the
/// file system or following symlinks), then collapse `.` and `..` segments lexically. A
/// `..` that would climb past the root is clamped there rather than escaping.
pub fn normalize_lexically(path: &str, cwd: &str) -> (res: String)
    ensures
        res@ == segs_text(normalized(path@, cwd@)),
{
    let segs = absolute_segments_of(path, cwd);
    let norm = normalize_segs_of(&segs);
    segs_text_of(&norm)
}

/// Defense in depth against template-driven path traversal.
///
/// Both `candidate` and `root` are normalized the same way — absolutized against the
/// working directory `cwd`, then `.`/`..` folded lexically — and the candidate must
/// start with the root, segment by segment. Nothing is canonicalized on the file system.
pub fn guard_path_within_root(candidate: &str, root: &str, cwd: &str) -> (res: Result<(), Error>)
    ensures
        res is Ok <==> within_root(candidate@, root@, cwd@),
        res matches Err(e) ==> (e matches Error::InvalidRecipe(m) && m@ == outside_root_message(
            candidate@,
            root@,
            cwd@,
        )),
{
    let c = absolute_segments_of(candidate, cwd);
    let resolved = normalize_segs_of(&c);
    let r = absolute_segments_of(root, cwd);
    let canon_root = normalize_segs_of(&r);
    if !seg_prefix(&canon_root, &resolved) {
        let a = concat("rendered path ", segs_text_of(&resolved).as_str());
        let b = concat(a.as_str(), " resolves outside the target ");
        let m = concat(b.as_str(), segs_text_of(&canon_root).as_str());
        return Err(Error::InvalidRecipe(m));
    }
    Ok(())
}

/// `base.join(rel)` for Unix paths: an absolute `rel` replaces `base`; otherwise `rel` is
/// appended after a `/` unless `base` is empty or already ends with one.
pub open spec fn join_path(base: Seq<char>, rel: Seq<char>) -> Seq<char> {
    if rel.len() > 0 && rel[0] == '/' {
        rel
    } else if base.len() == 0 || base.last() == '/' {
        base + rel
    } else {
        base + seq!['/'] + rel
    }
}

/// `base.join(rel)`.
pub fn join(base: &str, rel: &str) -> (res: String)
    ensures
        res@ == join_path(base@, rel@),
{
    let r = chars_of(rel);
    if r.len() > 0 && r[0] == '/' {
        return owned(rel);
    }
    let b = chars_of(base);
    if b.len() == 0 || b[b.len() - 1] == '/' {
        concat(base, rel)
    } else {
        let mut s = owned(base);
        push_char(&mut s, '/');
        let res = concat(s.as_str(), rel);
        res
    }
}

/// No segment of `s` is a parent step.
pub open spec fn no_parent(s: Seq<Seg>) -> bool {
    forall|i: int| 0 <= i < s.len() ==> #[trigger] s[i] != Seg::Parent
}

/// Every segment of `s` is a name.
pub open spec fn all_names(s: Seq<Seg>) -> bool {
    forall|i: int| 0 <= i < s.len() ==> #[trigger] s[i] is Name
}

proof fn lemma_until_slash_props(s: Seq<char>)
    ensures
        until_slash(s).len() <= s.len(),
        until_slash(s) == s.take(until_slash(s).len() as int),
        forall|i: int| 0 <= i < until_slash(s).len() ==> s[i] != '/',
        until_slash(s).len() < s.len() ==> s[until_slash(s).len() as int] == '/',
    decreases s.len(),
{
    if s.len() > 0 && s[0] != '/' {
        lemma_until_slash_props(s.drop_first());
        assert(until_slash(s) =~= s.take(until_slash(s).len() as int));
        assert forall|i: int| 0 <= i < until_slash(s).len() implies s[i] != '/' by {
            if i > 0 {
                assert(s[i] == s.drop_first()[i - 1]);
            }
        }
    } else {
        assert(s.take(0) =~= seq![]);
    }
}

/// Splitting at a `/` splits the segments.
proof fn lemma_rel_segments_split(a: Seq<char>, b: Seq<char>)
    ensures
        rel_segments(a + seq!['/'] + b) == rel_segments(a) + rel_segments(b),
    decreases a.len(),
{
    let s = a + seq!['/'] + b;
    lemma_until_slash_props(a);
    let f = until_slash(a);
    // the first field of `s` is the first field of `a`
    assert forall|k: int| 0 <= k < f.len() implies s[k] != '/' by {
        assert(s[k] == a[k]);
    }
    if f.len() < a.len() {
        assert(s[f.len() as int] == a[f.len() as int]);
    } else {
        assert(s[a.len() as int] == '/');
    }
    lemma_until_slash_at(s, f.len() as int);
    assert(s.take(f.len() as int) =~= a.take(f.len() as int));
    assert(until_slash(s) == f);
    if f.len() < a.len() {
        let a2 = a.skip(f.len() as int + 1);
        lemma_rel_segments_split(a2, b);
        assert(s.skip(f.len() as int + 1) =~= a2 + seq!['/'] + b);
    } else {
        assert(s.skip(f.len() as int + 1) =~= b);
    }
}

/// Appending a `/` changes no segment.
proof fn lemma_rel_segments_trailing_slash(a: Seq<char>)
    ensures
        rel_segments(a + seq!['/']) == rel_segments(a),
{
    lemma_rel_segments_split(a, seq![]);
    assert(a + seq!['/'] + seq![] =~= a + seq!['/']);
    assert(until_slash(Seq::<char>::empty()) =~= seq![]);
    assert(rel_segments(Seq::<char>::empty()) =~= seq![]);
    assert(rel_segments(a) + rel_segments(Seq::<char>::empty()) =~= rel_segments(a));
}

proof fn lemma_rel_segments_no_root(p: Seq<char>)
    ensures
        forall|i: int| 0 <= i < rel_segments(p).len() ==> #[trigger] rel_segments(p)[i] != Seg::Root,
    decreases p.len(),
{
    lemma_until_slash_props(p);
    let f = until_slash(p);
    if f.len() < p.len() {
        lemma_rel_segments_no_root(p.skip(f.len() as int + 1));
        let h = field_segs(f);
        let t = rel_segments(p.skip(f.len() as int + 1));
        assert forall|i: int| 0 <= i < (h + t).len() implies #[trigger] (h + t)[i] != Seg::Root by {
            if i >= h.len() {
                assert((h + t)[i] == t[i - h.len()]);
            }
        }
    }
}

/// Folding a list of plain names onto a normalized prefix just appends them.
proof fn lemma_normalize_append_names(a: Seq<Seg>, b: Seq<Seg>)
    requires
        all_names(b),
    ensures
        normalize_segs(a + b) == normalize_segs(a) + b,
    decreases b.len(),
{
    if b.len() == 0 {
        assert(a + b =~= a);
        assert(normalize_segs(a) + b =~= normalize_segs(a));
    } else {
        let b2 = b.drop_last();
        assert(all_names(b2)) by {
            assert forall|i: int| 0 <= i < b2.len() implies #[trigger] b2[i] is Name by {
                assert(b2[i] == b[i]);
            }
        }
        lemma_normalize_append_names(a, b2);
        assert((a + b).drop_last() =~= a + b2);
        assert((a + b).last() == b.last());
        assert(b[b.len() - 1] is Name);
        assert(normalize_segs(a) + b =~= (normalize_segs(a) + b2).push(b.last()));
    }
}

/// Joining a relative path without `..` segments onto the project root never trips the
/// guard: whatever the root and the working directory, the result stays inside the root.
pub proof fn law_guard_admits_descendants(root: Seq<char>, rel: Seq<char>, cwd: Seq<char>)
    requires
        !(rel.len() > 0 && rel[0] == '/'),
        no_parent(path_segments(rel)),
    ensures
        within_root(join_path(root, rel), root, cwd),
{
    let j = join_path(root, rel);
    let b = rel_segments(rel);
    assert(path_segments(rel) == b);
    lemma_rel_segments_no_root(rel);
    assert(all_names(b)) by {
        assert forall|i: int| 0 <= i < b.len() implies #[trigger] b[i] is Name by {
            assert(b[i] != Seg::Parent);
            assert(b[i] != Seg::Root);
        }
    }
    // the segments of the joined path are the root's followed by `rel`'s
    if root.len() == 0 {
        assert(j =~= rel);
        assert(path_segments(root) =~= seq![]) by {
            assert(until_slash(root) =~= seq![]);
        }
        assert(absolute_segments(j, cwd) =~= absolute_segments(root, cwd) + b);
    } else if root.last() == '/' {
        let r0 = root.drop_last();
        assert(root =~= r0 + seq!['/']);
        assert(j =~= r0 + seq!['/'] + rel);
        if root[0] == '/' {
            if r0.len() == 0 {
                assert(j =~= seq!['/'] + rel);
                assert(j.drop_first() =~= rel);
                assert(root.drop_first() =~= seq![]);
                assert(until_slash(root.drop_first()) =~= seq![]);
                assert(rel_segments(root.drop_first()) =~= seq![]);
                assert(path_segments(j) =~= path_segments(root) + b);
            } else {
                assert(j.drop_first() =~= r0.drop_first() + seq!['/'] + rel);
                assert(root.drop_first() =~= r0.drop_first() + seq!['/']);
                lemma_rel_segments_split(r0.drop_first(), rel);
                lemma_rel_segments_trailing_slash(r0.drop_first());
                assert(path_segments(j) =~= path_segments(root) + b);
            }
            assert(absolute_segments(j, cwd) =~= absolute_segments(root, cwd) + b);
        } else {
            lemma_rel_segments_split(r0, rel);
            lemma_rel_segments_trailing_slash(r0);
            assert(absolute_segments(j, cwd) =~= absolute_segments(root, cwd) + b);
        }
    } else {
        assert(j =~= root + seq!['/'] + rel);
        if root[0] == '/' {
            assert(j.drop_first() =~= root.drop_first() + seq!['/'] + rel);
            lemma_rel_segments_split(root.drop_first(), rel);
            assert(path_segments(j) =~= path_segments(root) + b);
            assert(absolute_segments(j, cwd) =~= absolute_segments(root, cwd) + b);
        } else {
            lemma_rel_segments_split(root, rel);
            assert(absolute_segments(j, cwd) =~= absolute_segments(root, cwd) + b);
        }
    }
    lemma_normalize_append_names(absolute_segments(root, cwd), b);
    let nr = normalized(root, cwd);
    assert((nr + b).take(nr.len() as int) =~= nr);
}

} // verus!
