//! The decisions of the render walk: options and report, which template entries are
//! skipped, the names they are written under, whether a file body is rendered or copied,
//! what to do with an existing target directory, and the path guard.
//!
//! The walk itself (template tree, file system) is driven by the front end, which asks
//! these functions what to do with each entry and renders through
//! [`crate::engine::Renderer`].

use vstd::prelude::*;

use crate::context::{bakery_entries_ok, entropy_failure_message, Context};
use crate::engine::{context_view, is_template_environment, Renderer};
use crate::error::Error;
use crate::paths::{
    guard_path_within_root, join, join_path, outside_root_message, path_segments, path_segments_of,
    seg_view, segs_view, within_root, PathSeg, Seg,
};
use crate::recipe::Recipe;
use crate::text::{ascii_lower_seq, chars_of, concat, lower_all, owned, str_eq, string_from_chars};
use crate::version_map::VersionMap;
use crate::versions::{compat_check, compat_warnings, ResolveMode};

verus! {

/// The marker a templated name or line renders to when it must be left out.
pub const SKIP_SENTINEL: &'static str = "__SKIP__";

/// Caller-supplied options for one render call.
#[derive(Debug, Clone)]
pub struct RenderOptions {
    pub output_dir: String,
    /// Overwrite an existing non-empty output directory.
    pub force: bool,
    /// Run post-generation hooks (chmod scripts, git init, etc.).
    pub run_hooks: bool,
    /// Initialize the recipe's VCS + first commit.
    pub git_init: bool,
    /// Run `uv sync` and friends inside the generated project.
    pub bootstrap: bool,
    /// How to resolve dependency versions.
    pub version_mode: ResolveMode,
    /// Treat compatibility-check warnings as hard errors.
    pub strict_compat: bool,
}

impl RenderOptions {
    /// Options for rendering into `output_dir`: no overwrite, hooks and VCS init on, no
    /// bootstrap, online version resolution, warnings not fatal.
    pub fn new(output_dir: &str) -> (res: Self)
        ensures
            res.output_dir@ == output_dir@,
            !res.force,
            res.run_hooks,
            res.git_init,
            !res.bootstrap,
            res.version_mode == ResolveMode::Online,
            !res.strict_compat,
    {
        RenderOptions {
            output_dir: owned(output_dir),
            force: false,
            run_hooks: true,
            git_init: true,
            bootstrap: false,
            version_mode: ResolveMode::Online,
            strict_compat: false,
        }
    }
}

/// Summary returned after a render.
#[derive(Debug, Clone)]
pub struct RenderReport {
    pub project_root: String,
    pub files_written: usize,
    pub directories_created: usize,
    pub elapsed_ms: u128,
    pub compat_warnings: Vec<String>,
}

// ---------------------------------------------------------------------------
// names
// ---------------------------------------------------------------------------

/// `s` ends with `suffix`.
pub open spec fn ends_with(s: Seq<char>, suffix: Seq<char>) -> bool {
    suffix.len() <= s.len() && s.subrange(s.len() - suffix.len(), s.len() as int) == suffix
}

/// `s` starts with `prefix`.
pub open spec fn starts_with(s: Seq<char>, prefix: Seq<char>) -> bool {
    prefix.len() <= s.len() && s.take(prefix.len() as int) == prefix
}

/// `s` contains `part` at some position.
pub open spec fn contains_part(s: Seq<char>, part: Seq<char>) -> bool {
    exists|i: int| 0 <= i && i + part.len() <= s.len() && #[trigger] s.subrange(i, i + part.len()) == part
}

pub open spec fn j2_suffix() -> Seq<char> {
    seq!['.', 'j', '2']
}

pub open spec fn dot_prefix() -> Seq<char> {
    seq!['_', 'd', 'o', 't', '_']
}

/// A trailing `.j2` is removed; a leading `_dot_` becomes a literal `.` (so dotfiles can
/// be kept in the template tree under visible names).
pub open spec fn strip_jinja_ext_spec(name: Seq<char>) -> Seq<char> {
    let s = if ends_with(name, j2_suffix()) {
        name.take(name.len() - 3)
    } else {
        name
    };
    if starts_with(s, dot_prefix()) {
        seq!['.'] + s.skip(5)
    } else {
        s
    }
}

fn ends_with_chars(s: &Vec<char>, suffix: &Vec<char>) -> (res: bool)
    ensures
        res == ends_with(s@, suffix@),
{
    if suffix.len() > s.len() {
        return false;
    }
    let off = s.len() - suffix.len();
    let mut i: usize = 0;
    while i < suffix.len()
        invariant
            i <= suffix.len(),
            off + suffix.len() == s.len(),
            forall|j: int| 0 <= j < i ==> s@[off + j] == suffix@[j],
        decreases suffix.len() - i,
    {
        if s[off + i] != suffix[i] {
            assert(s@.subrange(off as int, s.len() as int)[i as int] != suffix@[i as int]);
            return false;
        }
        i = i + 1;
    }
    assert(s@.subrange(off as int, s.len() as int) =~= suffix@);
    true
}

fn starts_with_chars(s: &Vec<char>, prefix: &Vec<char>) -> (res: bool)
    ensures
        res == starts_with(s@, prefix@),
{
    if prefix.len() > s.len() {
        return false;
    }
    let mut i: usize = 0;
    while i < prefix.len()
        invariant
            i <= prefix.len() <= s.len(),
            forall|j: int| 0 <= j < i ==> s@[j] == prefix@[j],
        decreases prefix.len() - i,
    {
        if s[i] != prefix[i] {
            assert(s@.take(prefix.len() as int)[i as int] != prefix@[i as int]);
            return false;
        }
        i = i + 1;
    }
    assert(s@.take(prefix.len() as int) =~= prefix@);
    true
}

/// Whether `part` occurs in `s`.
pub fn contains_chars(s: &Vec<char>, part: &Vec<char>) -> (res: bool)
    ensures
        res == contains_part(s@, part@),
{
    if part.len() > s.len() {
        return false;
    }
    let last = s.len() - part.len();
    let mut i: usize = 0;
    while i <= last
        invariant
            last + part.len() == s.len(),
            forall|k: int| 0 <= k < i ==> #[trigger] s@.subrange(k, k + part.len()) != part@,
        decreases last + 1 - i,
    {
        let mut t: usize = 0;
        let mut same = true;
        while t < part.len() && same
            invariant
                t <= part.len(),
                i <= last,
                last + part.len() == s.len(),
                same ==> forall|j: int| 0 <= j < t ==> s@[i + j] == part@[j],
                !same ==> s@.subrange(i as int, i + part.len()) != part@,
            decreases part.len() - t + (if same { 1int } else { 0int }),
        {
            if s[i + t] != part[t] {
                assert(s@.subrange(i as int, i + part.len())[t as int] != part@[t as int]);
                same = false;
            } else {
                t = t + 1;
            }
        }
        if same {
            assert(s@.subrange(i as int, i + part.len()) =~= part@);
            return true;
        }
        if i == last {
            proof {
                assert forall|k: int| 0 <= k && k + part.len() <= s.len() implies #[trigger] s@.subrange(
                    k,
                    k + part.len(),
                ) != part@ by {
                    assert(k <= last);
                }
            }
            return false;
        }
        i = i + 1;
    }
    false
}

/// Remove a trailing `.j2`, and turn a leading `_dot_` into a literal `.`.
pub fn strip_jinja_ext(name: &str) -> (res: String)
    ensures
        res@ == strip_jinja_ext_spec(name@),
{
    let cs = chars_of(name);
    let j2: Vec<char> = vec!['.', 'j', '2'];
    let dot: Vec<char> = vec!['_', 'd', 'o', 't', '_'];
    assert(j2@ =~= j2_suffix());
    assert(dot@ =~= dot_prefix());
    let mut s: Vec<char> = Vec::new();
    let keep = if ends_with_chars(&cs, &j2) {
        cs.len() - 3
    } else {
        cs.len()
    };
    let mut i: usize = 0;
    while i < keep
        invariant
            i <= keep <= cs.len(),
            s@ == cs@.take(i as int),
        decreases keep - i,
    {
        s.push(cs[i]);
        assert(s@ =~= cs@.take(i + 1));
        i = i + 1;
    }
    let ghost stripped = s@;
    assert(stripped =~= (if ends_with(name@, j2_suffix()) {
        name@.take(name@.len() - 3)
    } else {
        name@
    }));
    if starts_with_chars(&s, &dot) {
        let mut out: Vec<char> = vec!['.'];
        let mut k: usize = 5;
        while k < s.len()
            invariant
                5 <= k <= s.len(),
                out@ == seq!['.'] + s@.subrange(5, k as int),
            decreases s.len() - k,
        {
            out.push(s[k]);
            assert(out@ =~= seq!['.'] + s@.subrange(5, k + 1));
            k = k + 1;
        }
        assert(s@.subrange(5, s.len() as int) =~= s@.skip(5));
        string_from_chars(&out)
    } else {
        string_from_chars(&s)
    }
}

/// Whether `c` is white space as `char::is_whitespace` has it: the Unicode White_Space
/// property — tab, line feed, vertical tab, form feed, carriage return, space, U+0085,
/// U+00A0, U+1680, U+2000 to U+200A, U+2028, U+2029, U+202F, U+205F and U+3000.
pub open spec fn unicode_whitespace(c: char) -> bool {
    ||| ('\u{9}' <= c && c <= '\u{d}')
    ||| c == ' '
    ||| c == '\u{85}'
    ||| c == '\u{a0}'
    ||| c == '\u{1680}'
    ||| ('\u{2000}' <= c && c <= '\u{200a}')
    ||| c == '\u{2028}'
    ||| c == '\u{2029}'
    ||| c == '\u{202f}'
    ||| c == '\u{205f}'
    ||| c == '\u{3000}'
}

/// Whether `c` is white space (see [`unicode_whitespace`]).
pub fn is_whitespace(c: char) -> (res: bool)
    ensures
        res == unicode_whitespace(c),
{
    ('\u{9}' <= c && c <= '\u{d}') || c == ' ' || c == '\u{85}' || c == '\u{a0}' || c
        == '\u{1680}' || ('\u{2000}' <= c && c <= '\u{200a}') || c == '\u{2028}' || c
        == '\u{2029}' || c == '\u{202f}' || c == '\u{205f}' || c == '\u{3000}'
}

/// Every character is white space (`s.trim().is_empty()`).
pub open spec fn is_blank(s: Seq<char>) -> bool {
    forall|i: int| 0 <= i < s.len() ==> unicode_whitespace(#[trigger] s[i])
}

/// Whether a string is empty or white space only.
pub fn blank(s: &str) -> (res: bool)
    ensures
        res == is_blank(s@),
{
    let cs = chars_of(s);
    let mut i: usize = 0;
    while i < cs.len()
        invariant
            i <= cs.len(),
            cs@ == s@,
            forall|j: int| 0 <= j < i ==> unicode_whitespace(#[trigger] s@[j]),
        decreases cs.len() - i,
    {
        if !is_whitespace(cs[i]) {
            return false;
        }
        i = i + 1;
    }
    true
}

/// A rendered entry name that asks for the entry to be left out: it contains the skip
/// sentinel or renders to nothing but white space.
pub open spec fn is_skipped_name(rendered: Seq<char>) -> bool {
    contains_part(rendered, SKIP_SENTINEL@) || is_blank(rendered)
}

/// A rendered entry name that holds `__SKIP__` anywhere (as a prefix such as
/// `__SKIP__celery_app.py.j2`, inside, or at its end), or that is empty or white space only,
/// leaves its entry out; any other name keeps it.
pub proof fn law_sentinel_anywhere_skips(rendered: Seq<char>, at: int)
    ensures
        0 <= at && at + 8 <= rendered.len() && rendered.subrange(at, at + 8) == "__SKIP__"@
            ==> is_skipped_name(rendered),
        (forall|k: int| 0 <= k < rendered.len() ==> unicode_whitespace(#[trigger] rendered[k]))
            ==> is_skipped_name(rendered),
        (forall|a: int| 0 <= a && a + 8 <= rendered.len() ==> #[trigger] rendered.subrange(a, a + 8)
            != "__SKIP__"@) && (exists|k: int| 0 <= k < rendered.len() && !unicode_whitespace(
            #[trigger] rendered[k],
        )) ==> !is_skipped_name(rendered),
{
    reveal_strlit("__SKIP__");
    assert(SKIP_SENTINEL@ == "__SKIP__"@);
}

/// Whether a rendered entry name asks for the entry to be left out.
pub fn skipped_name(rendered: &str) -> (res: bool)
    ensures
        res == is_skipped_name(rendered@),
{
    let cs = chars_of(rendered);
    let sentinel = chars_of(SKIP_SENTINEL);
    contains_chars(&cs, &sentinel) || blank(rendered)
}

// ---------------------------------------------------------------------------
// skip lines
// ---------------------------------------------------------------------------

/// The length of the first line of `s`, its line feed included (all of `s` when it has
/// none).
pub open spec fn line_len(s: Seq<char>) -> int
    decreases s.len(),
{
    if s.len() == 0 {
        0
    } else if s[0] == '\n' {
        1
    } else {
        1 + line_len(s.skip(1))
    }
}

/// A non-empty text has a first line of at least one and at most all of its characters.
pub proof fn lemma_line_len_bounds(s: Seq<char>)
    ensures
        s.len() > 0 ==> 1 <= line_len(s) <= s.len(),
    decreases s.len(),
{
    if s.len() > 0 && s[0] != '\n' {
        let t = s.skip(1);
        lemma_line_len_bounds(t);
        if t.len() == 0 {
            assert(line_len(t) == 0);
        }
    }
}

/// The first line of `s` ends after index `j`'s line feed, or at the end of `s`.
proof fn lemma_line_len(s: Seq<char>, j: int)
    requires
        0 <= j <= s.len(),
        forall|k: int| 0 <= k < j ==> s[k] != '\n',
        j == s.len() || s[j] == '\n',
    ensures
        line_len(s) == if j < s.len() {
            j + 1
        } else {
            j
        },
    decreases j,
{
    if j > 0 {
        let t = s.skip(1);
        assert forall|k: int| 0 <= k < j - 1 implies t[k] != '\n' by {
            assert(t[k] == s[k + 1]);
        }
        if j < s.len() {
            assert(t[j - 1] == s[j]);
        }
        lemma_line_len(t, j - 1);
    }
}

/// A line's text without its line feed.
pub open spec fn line_text(line: Seq<char>) -> Seq<char> {
    if line.len() > 0 && line.last() == '\n' {
        line.drop_last()
    } else {
        line
    }
}

/// `t` is white space, then the skip sentinel from index `a`, then white space.
pub open spec fn skip_at(t: Seq<char>, a: int) -> bool {
    &&& 0 <= a && a + SKIP_SENTINEL@.len() <= t.len()
    &&& forall|k: int| 0 <= k < a ==> unicode_whitespace(#[trigger] t[k])
    &&& t.subrange(a, a + SKIP_SENTINEL@.len()) == SKIP_SENTINEL@
    &&& forall|k: int| a + SKIP_SENTINEL@.len() <= k < t.len() ==> unicode_whitespace(#[trigger] t[k])
}

/// Text that, trimmed of white space, is exactly the skip sentinel.
pub open spec fn is_skip_text(t: Seq<char>) -> bool {
    exists|a: int| #[trigger] skip_at(t, a)
}

/// `s` without its skip lines: every line whose text, trimmed of white space, is the
/// sentinel is removed together with its line feed; every other line is kept as it is.
pub open spec fn without_skip_lines(s: Seq<char>) -> Seq<char>
    decreases s.len(),
{
    if s.len() == 0 {
        seq![]
    } else {
        proof {
            lemma_line_len_bounds(s);
        }
        let n = line_len(s);
        if is_skip_text(line_text(s.take(n))) {
            without_skip_lines(s.skip(n))
        } else {
            s.take(n) + without_skip_lines(s.skip(n))
        }
    }
}

/// A witness of [`is_skip_text`] is the first character that is not white space.
proof fn lemma_skip_witness_is_first(t: Seq<char>, a: int, w: int)
    requires
        0 <= a <= t.len(),
        forall|k: int| 0 <= k < a ==> unicode_whitespace(#[trigger] t[k]),
        a == t.len() || !unicode_whitespace(t[a]),
        0 <= w && w + SKIP_SENTINEL@.len() <= t.len(),
        forall|k: int| 0 <= k < w ==> unicode_whitespace(#[trigger] t[k]),
        t.subrange(w, w + SKIP_SENTINEL@.len()) == SKIP_SENTINEL@,
    ensures
        w == a,
{
    reveal_strlit("__SKIP__");
    assert(t[w] == t.subrange(w, w + SKIP_SENTINEL@.len())[0]);
    assert(!unicode_whitespace(t[w]));
    if w > a {
        assert(unicode_whitespace(t[a]));
    }
}

/// Whether a line's text is a skip line's.
fn skip_text(t: &Vec<char>, sentinel: &Vec<char>) -> (res: bool)
    requires
        sentinel@ == SKIP_SENTINEL@,
    ensures
        res == is_skip_text(t@),
{
    let mut a: usize = 0;
    while a < t.len() && is_whitespace(t[a])
        invariant
            a <= t.len(),
            forall|k: int| 0 <= k < a ==> unicode_whitespace(#[trigger] t@[k]),
        decreases t.len() - a,
    {
        a = a + 1;
    }
    let n = sentinel.len();
    let ok = if n > t.len() - a {
        false
    } else {
        let mut i: usize = 0;
        let mut same = true;
        while i < n
            invariant
                i <= n,
                n == sentinel@.len(),
                a + n <= t.len(),
                same <==> forall|k: int| 0 <= k < i ==> t@[a + k] == sentinel@[k],
            decreases n - i,
        {
            if t[a + i] != sentinel[i] {
                same = false;
            }
            i = i + 1;
        }
        if same {
            assert(t@.subrange(a as int, a + n) =~= sentinel@);
            let mut j: usize = a + n;
            let mut rest = true;
            while j < t.len()
                invariant
                    a + n <= j <= t.len(),
                    rest <==> forall|k: int| a + n <= k < j ==> unicode_whitespace(#[trigger] t@[k]),
                decreases t.len() - j,
            {
                if !is_whitespace(t[j]) {
                    rest = false;
                }
                j = j + 1;
            }
            rest
        } else {
            false
        }
    };
    proof {
        if ok {
            assert(t@.subrange(a as int, a + n) =~= sentinel@);
            assert(skip_at(t@, a as int));
        } else if is_skip_text(t@) {
            let w = choose|w: int| skip_at(t@, w);
            lemma_skip_witness_is_first(t@, a as int, w);
            if a + n <= t.len() {
                assert forall|k: int| 0 <= k < n implies t@[a + k] == sentinel@[k] by {
                    assert(t@[a + k] == t@.subrange(a as int, a + n)[k]);
                }
            }
        }
    }
    ok
}

/// Removes every line whose trimmed content is the skip sentinel, with its line feed, so
/// templates can place sentinels mid-file without leaving stray markers; the lines around
/// it are kept as they are.
pub fn strip_skip_lines(rendered: &str) -> (res: String)
    ensures
        res@ == without_skip_lines(rendered@),
{
    let cs = chars_of(rendered);
    let sentinel = chars_of(SKIP_SENTINEL);
    let mut out: Vec<char> = Vec::new();
    let mut pos: usize = 0;
    assert(cs@.skip(0) =~= cs@);
    while pos < cs.len()
        invariant
            pos <= cs.len(),
            sentinel@ == SKIP_SENTINEL@,
            without_skip_lines(cs@) == out@ + without_skip_lines(cs@.skip(pos as int)),
        decreases cs.len() - pos,
    {
        let mut j: usize = pos;
        while j < cs.len() && cs[j] != '\n'
            invariant
                pos <= j <= cs.len(),
                forall|k: int| pos <= k < j ==> cs@[k] != '\n',
            decreases cs.len() - j,
        {
            j = j + 1;
        }
        let end: usize = if j < cs.len() {
            j + 1
        } else {
            j
        };
        let ghost s = cs@.skip(pos as int);
        proof {
            assert forall|k: int| 0 <= k < j - pos implies s[k] != '\n' by {
                assert(s[k] == cs@[pos + k]);
            }
            if j < cs.len() {
                assert(s[j - pos] == cs@[j as int]);
            }
            lemma_line_len(s, j - pos);
            assert(s.take(end - pos) =~= cs@.subrange(pos as int, end as int));
            assert(s.skip(end - pos) =~= cs@.skip(end as int));
            if j < cs.len() {
                assert(line_text(s.take(end - pos)) =~= cs@.subrange(pos as int, j as int));
            } else {
                assert(line_text(s.take(end - pos)) =~= cs@.subrange(pos as int, j as int));
            }
        }
        let mut text: Vec<char> = Vec::new();
        let mut k: usize = pos;
        while k < j
            invariant
                pos <= k <= j,
                j <= cs.len(),
                text@ == cs@.subrange(pos as int, k as int),
            decreases j - k,
        {
            text.push(cs[k]);
            assert(text@ =~= cs@.subrange(pos as int, k + 1));
            k = k + 1;
        }
        let ghost before = out@;
        if !skip_text(&text, &sentinel) {
            let mut k: usize = pos;
            while k < end
                invariant
                    pos <= k <= end,
                    end <= cs.len(),
                    out@ == before + cs@.subrange(pos as int, k as int),
                decreases end - k,
            {
                out.push(cs[k]);
                assert(out@ =~= before + cs@.subrange(pos as int, k + 1));
                k = k + 1;
            }
        }
        assert(out@ + without_skip_lines(cs@.skip(end as int)) =~= before + without_skip_lines(s));
        pos = end;
    }
    assert(cs@.skip(pos as int) =~= seq![]);
    assert(out@ + seq![] =~= out@);
    string_from_chars(&out)
}

// ---------------------------------------------------------------------------
// file names and extensions
// ---------------------------------------------------------------------------

/// Index of the last `c` in `s`, or -1.
pub open spec fn last_index_of(s: Seq<char>, c: char) -> int
    decreases s.len(),
{
    if s.len() == 0 {
        -1
    } else if s.last() == c {
        s.len() - 1
    } else {
        last_index_of(s.drop_last(), c)
    }
}

/// The last segment of a path when it is a name (`Path::file_name`).
pub open spec fn file_name(p: Seq<char>) -> Option<Seq<char>> {
    let segs = path_segments(p);
    if segs.len() > 0 && segs.last() is Name {
        Some(segs.last()->Name_0)
    } else {
        None
    }
}

/// The extension of a file name: what follows its last `.`, when that `.` is not the
/// first character (`Path::extension`).
pub open spec fn name_extension(name: Seq<char>) -> Option<Seq<char>> {
    let i = last_index_of(name, '.');
    if i <= 0 {
        None
    } else {
        Some(name.skip(i + 1))
    }
}

/// The lower-cased extension of a path, empty when it has none.
pub open spec fn lower_extension(p: Seq<char>) -> Seq<char> {
    match file_name(p) {
        Some(n) => match name_extension(n) {
            Some(e) => ascii_lower_seq(e),
            None => seq![],
        },
        None => seq![],
    }
}

/// Extensions of files that are copied byte for byte, never rendered.
pub open spec fn is_binary_extension(e: Seq<char>) -> bool {
    e == "png"@ || e == "jpg"@ || e == "jpeg"@ || e == "gif"@ || e == "ico"@ || e == "webp"@ || e
        == "woff"@ || e == "woff2"@ || e == "ttf"@ || e == "eot"@ || e == "otf"@ || e == "mp4"@
        || e == "pdf"@
}

/// Whether an extension belongs to a binary asset.
pub fn binary_extension(e: &str) -> (res: bool)
    ensures
        res == is_binary_extension(e@),
{
    str_eq(e, "png") || str_eq(e, "jpg") || str_eq(e, "jpeg") || str_eq(e, "gif") || str_eq(
        e,
        "ico",
    ) || str_eq(e, "webp") || str_eq(e, "woff") || str_eq(e, "woff2") || str_eq(e, "ttf")
        || str_eq(e, "eot") || str_eq(e, "otf") || str_eq(e, "mp4") || str_eq(e, "pdf")
}

/// The lower-cased extension of a path (empty when it has none).
pub fn extension_of(p: &str) -> (res: String)
    ensures
        res@ == lower_extension(p@),
{
    let segs = path_segments_of(p);
    if segs.len() == 0 {
        return String::new();
    }
    let ghost sv = segs_view(segs@);
    assert(sv.last() == seg_view(segs@[segs.len() - 1]));
    match &segs[segs.len() - 1] {
        PathSeg::Name(n) => {
            // last `.`
            let mut i: usize = n.len();
            assert(n@.take(n@.len() as int) =~= n@);
            while i > 0 && n[i - 1] != '.'
                invariant
                    i <= n.len(),
                    last_index_of(n@, '.') == last_index_of(n@.take(i as int), '.'),
                decreases i,
            {
                assert(n@.take(i as int).drop_last() =~= n@.take(i - 1));
                i = i - 1;
            }
            proof {
                if i > 0 {
                    assert(n@.take(i as int).last() == '.');
                } else {
                    assert(n@.take(0).len() == 0);
                }
            }
            assert(n@.take(n@.len() as int) =~= n@);
            if i <= 1 {
                String::new()
            } else {
                let mut e: Vec<char> = Vec::new();
                let mut k: usize = i;
                while k < n.len()
                    invariant
                        i <= k <= n.len(),
                        e@ == n@.subrange(i as int, k as int),
                    decreases n.len() - k,
                {
                    e.push(n[k]);
                    assert(e@ =~= n@.subrange(i as int, k + 1));
                    k = k + 1;
                }
                assert(e@ =~= n@.skip(i as int));
                let lowered = lower_all(&e);
                string_from_chars(&lowered)
            }
        },
        _ => String::new(),
    }
}

/// Templates whose names end in `.html` or `.html.j2` get HTML auto-escaping; every other
/// output (Python, YAML, TOML, Dockerfile, ...) is rendered verbatim.
pub open spec fn wants_html_escape_spec(name: Seq<char>) -> bool {
    ends_with(name, ".html"@) || ends_with(name, ".html.j2"@)
}

/// Whether a template of this name is rendered with HTML auto-escaping.
pub fn wants_html_escape(name: &str) -> (res: bool)
    ensures
        res == wants_html_escape_spec(name@),
{
    let cs = chars_of(name);
    let a = chars_of(".html");
    let b = chars_of(".html.j2");
    ends_with_chars(&cs, &a) || ends_with_chars(&cs, &b)
}

// ---------------------------------------------------------------------------
// entry plans
// ---------------------------------------------------------------------------

/// What the walk does with one template entry.
#[derive(Debug, Clone, Copy, PartialEq, Eq, Structural)]
pub enum PlanKind {
    /// Leave the entry (and, for a directory, everything below it) out.
    Skip,
    /// Create the directory and walk its children.
    MakeDir,
    /// Write the file's bytes unchanged.
    CopyFile,
    /// Render the file's body as a template, strip skip lines, write the result.
    RenderFile,
}

/// The decision for one entry: its kind, its path relative to the project root, and the
/// path it is written to.
#[derive(Debug, Clone)]
pub struct EntryPlan {
    pub kind: PlanKind,
    pub rel: String,
    pub abs: String,
}

/// The path of an entry relative to the project root.
pub open spec fn entry_rel(rendered: Seq<char>, rel_parent: Seq<char>) -> Seq<char> {
    join_path(rel_parent, strip_jinja_ext_spec(rendered))
}

/// The path an entry is written to.
pub open spec fn entry_abs(rendered: Seq<char>, rel_parent: Seq<char>, root: Seq<char>) -> Seq<char> {
    join_path(root, entry_rel(rendered, rel_parent))
}

/// A file whose rendered name ends in `.j2` has its body rendered, unless its extension is
/// a binary one; every other file is copied verbatim.
pub open spec fn file_kind(rendered: Seq<char>, abs: Seq<char>) -> PlanKind {
    if !ends_with(rendered, j2_suffix()) || is_binary_extension(lower_extension(abs)) {
        PlanKind::CopyFile
    } else {
        PlanKind::RenderFile
    }
}

/// Decides what to do with a template entry whose name rendered to `rendered`, found
/// under `rel_parent` (relative to the project root `target_root`). A name containing the
/// skip sentinel, or blank, leaves the entry out; otherwise the `.j2` / `_dot_` naming
/// conventions give its output name, and the path guard must accept where it lands.
pub fn plan_entry(
    is_dir: bool,
    rendered: &str,
    rel_parent: &str,
    target_root: &str,
    cwd: &str,
) -> (res: Result<EntryPlan, Error>)
    ensures
        is_skipped_name(rendered@) ==> (res matches Ok(p) && p.kind == PlanKind::Skip),
        res matches Ok(p) ==> (p.kind != PlanKind::Skip ==> within_root(p.abs@, target_root@, cwd@)),
        !is_skipped_name(rendered@) && !within_root(entry_abs(rendered@, rel_parent@, target_root@), target_root@, cwd@)
            ==> (res matches Err(e) && (e matches Error::InvalidRecipe(m) && m@ == outside_root_message(
            entry_abs(rendered@, rel_parent@, target_root@),
            target_root@,
            cwd@,
        ))),
        !is_skipped_name(rendered@) && within_root(entry_abs(rendered@, rel_parent@, target_root@), target_root@, cwd@)
            ==> (res matches Ok(p) && p.rel@ == entry_rel(rendered@, rel_parent@) && p.abs@
            == entry_abs(rendered@, rel_parent@, target_root@) && p.kind == (if is_dir {
            PlanKind::MakeDir
        } else {
            file_kind(rendered@, entry_abs(rendered@, rel_parent@, target_root@))
        })),
{
    if skipped_name(rendered) {
        return Ok(EntryPlan { kind: PlanKind::Skip, rel: String::new(), abs: String::new() });
    }
    let name = strip_jinja_ext(rendered);
    let rel = join(rel_parent, name.as_str());
    let abs = join(target_root, rel.as_str());
    match guard_path_within_root(abs.as_str(), target_root, cwd) {
        Err(e) => {
            return Err(e);
        },
        Ok(()) => {},
    }
    let kind = if is_dir {
        PlanKind::MakeDir
    } else {
        let cs = chars_of(rendered);
        let j2: Vec<char> = vec!['.', 'j', '2'];
        assert(j2@ =~= j2_suffix());
        let needs_render = ends_with_chars(&cs, &j2);
        let ext = extension_of(abs.as_str());
        if !needs_render || binary_extension(ext.as_str()) {
            PlanKind::CopyFile
        } else {
            PlanKind::RenderFile
        }
    };
    Ok(EntryPlan { kind, rel, abs })
}

// ---------------------------------------------------------------------------
// target directory, strict compatibility, project root
// ---------------------------------------------------------------------------

/// What to do with the target project directory before writing.
#[derive(Debug, Clone, Copy, PartialEq, Eq, Structural)]
pub enum TargetAction {
    /// It does not exist: create it (with its parents).
    Create,
    /// It exists and is empty: write into it.
    UseAsIs,
    /// It exists, is not empty, and `force` is on: remove it and create it afresh.
    Recreate,
}

/// Decides how to prepare the target directory: an existing non-empty directory is only
/// overwritten with `force`.
pub fn plan_target(target: &str, exists: bool, is_empty: bool, force: bool) -> (res: Result<
    TargetAction,
    Error,
>)
    ensures
        !exists ==> res == Ok::<TargetAction, Error>(TargetAction::Create),
        exists && is_empty ==> res == Ok::<TargetAction, Error>(TargetAction::UseAsIs),
        exists && !is_empty && force ==> res == Ok::<TargetAction, Error>(TargetAction::Recreate),
        exists && !is_empty && !force ==> (res matches Err(e) && (e matches Error::OutputDirNotEmpty(
            p,
        ) && p@ == target@)),
{
    if !exists {
        Ok(TargetAction::Create)
    } else if is_empty {
        Ok(TargetAction::UseAsIs)
    } else if force {
        Ok(TargetAction::Recreate)
    } else {
        Err(Error::OutputDirNotEmpty(owned(target)))
    }
}

/// `list` joined with `sep` between items.
pub open spec fn seq_join(list: Seq<Seq<char>>, sep: Seq<char>) -> Seq<char>
    decreases list.len(),
{
    if list.len() == 0 {
        seq![]
    } else if list.len() == 1 {
        list[0]
    } else {
        seq_join(list.drop_last(), sep) + sep + list.last()
    }
}

/// The views of a list of strings.
pub open spec fn string_views(v: Seq<String>) -> Seq<Seq<char>> {
    v.map_values(|s: String| s@)
}

/// `list` joined with `sep`.
pub fn join_strings(list: &Vec<String>, sep: &str) -> (res: String)
    ensures
        res@ == seq_join(string_views(list@), sep@),
{
    let mut res = String::new();
    let ghost lv = string_views(list@);
    let mut i: usize = 0;
    assert(lv.take(0) =~= seq![]);
    while i < list.len()
        invariant
            i <= list.len(),
            lv == string_views(list@),
            res@ == seq_join(lv.take(i as int), sep@),
        decreases list.len() - i,
    {
        assert(lv.take(i + 1).drop_last() =~= lv.take(i as int));
        if i == 0 {
            res = concat(res.as_str(), list[i].as_str());
            assert(lv.take(1) =~= seq![lv[0]]);
            assert(res@ =~= lv[0]);
        } else {
            let a = concat(res.as_str(), sep);
            res = concat(a.as_str(), list[i].as_str());
        }
        i = i + 1;
    }
    assert(lv.take(list.len() as int) =~= lv);
    res
}

/// The refusal message when strict compatibility is on and there are warnings.
pub open spec fn strict_compat_message(warnings: Seq<Seq<char>>) -> Seq<char> {
    "compatibility check failed:\n  - "@ + seq_join(warnings, "\n  - "@)
}

/// With `strict_compat`, any compatibility warning refuses the render.
pub fn compat_gate(strict_compat: bool, warnings: &Vec<String>) -> (res: Result<(), Error>)
    ensures
        res is Ok <==> !(strict_compat && warnings.len() > 0),
        res matches Err(e) ==> (e matches Error::InvalidRecipe(m) && m@ == strict_compat_message(
            string_views(warnings@),
        )),
{
    if strict_compat && warnings.len() > 0 {
        let joined = join_strings(warnings, "\n  - ");
        let m = concat("compatibility check failed:\n  - ", joined.as_str());
        return Err(Error::InvalidRecipe(m));
    }
    Ok(())
}

/// The generated project's root: the output directory joined with the project slug.
pub fn project_root(options: &RenderOptions, recipe: &Recipe) -> (res: String)
    ensures
        res@ == join_path(options.output_dir@, recipe.project_slug@),
{
    join(options.output_dir.as_str(), recipe.project_slug.as_str())
}

/// The recipe check that opens a render: a recipe that fails [`Recipe::validate`] is
/// refused with its message.
pub fn check_recipe(recipe: &Recipe) -> (res: Result<(), Error>)
    ensures
        res is Ok <==> recipe.validation_error() is None,
        res matches Err(e) ==> (e matches Error::InvalidRecipe(m) && Some(m@)
            == recipe.validation_error()),
{
    match recipe.validate() {
        Ok(()) => Ok(()),
        Err(m) => Err(Error::InvalidRecipe(m)),
    }
}

/// What a render has settled before it touches the disk.
pub struct RenderSetup {
    /// Where the project is generated: the output directory joined with the slug.
    pub project_root: String,
    /// The compatibility warnings of the recipe with the resolved versions.
    pub compat_warnings: Vec<String>,
    /// The template engine with the recipe's context.
    pub renderer: Renderer,
}

/// The part of a render that comes before the disk: the recipe is checked, the
/// compatibility warnings are computed (with `strict_compat`, any of them refuses the
/// render), the context is built from the recipe and the resolved `versions`, the template
/// engine is set up, and the project root is chosen. Building the context fails only when
/// a secret is needed and the operating system's random number generator fails.
pub fn prepare_render(recipe: &Recipe, options: &RenderOptions, versions: &VersionMap) -> (res:
    Result<RenderSetup, Error>)
    ensures
        recipe.validation_error() matches Some(m) ==> (res matches Err(e) && (e matches Error::InvalidRecipe(x) && x@ == m)),
        recipe.validation_error() is None && options.strict_compat && compat_warnings(*recipe, versions@).len() > 0
            ==> (res matches Err(e) && (e matches Error::InvalidRecipe(x) && x@ == strict_compat_message(
            compat_warnings(*recipe, versions@),
        ))),
        recipe.validation_error() is None && !(options.strict_compat && compat_warnings(*recipe, versions@).len() > 0)
            ==> ((res matches Ok(s) && s.project_root@ == join_path(options.output_dir@, recipe.project_slug@)
            && string_views(s.compat_warnings@) == compat_warnings(*recipe, versions@)
            && bakery_entries_ok(*recipe, versions.pairs(), s.renderer.bakery())
            && s.renderer.context() == context_view(s.renderer.bakery())
            && is_template_environment(s.renderer.environment())) || (res matches Err(e) && (e matches Error::Io { path, message } && path is None
            && message@ == entropy_failure_message()))),
{
    match check_recipe(recipe) {
        Err(e) => {
            return Err(e);
        },
        Ok(()) => {},
    }
    let warnings = compat_check(recipe, versions);
    assert(string_views(warnings@) == compat_warnings(*recipe, versions@));
    match compat_gate(options.strict_compat, &warnings) {
        Err(e) => {
            return Err(e);
        },
        Ok(()) => {},
    }
    let ctx = match Context::build_with_versions(recipe, versions) {
        Some(c) => c,
        None => {
            return Err(
                Error::Io {
                    path: None,
                    message: owned("the operating system's random number generator failed"),
                },
            );
        },
    };
    let renderer = Renderer::new(&ctx);
    let root = project_root(options, recipe);
    Ok(RenderSetup { project_root: root, compat_warnings: warnings, renderer })
}

} // verus!
