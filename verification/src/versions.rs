//! Version resolution — the bundled default pins, which packages a recipe needs, how
//! registry answers are folded in, and known-incompatible version combinations.
//!
//! The registry lookups themselves (PyPI / npm over HTTP) are made by the front end; the
//! answers are handed to [`resolve`], which decides what to keep.

use vstd::prelude::*;

use crate::options::{ApiLayer, CssFramework, Frontend, RadixFlavor, RelationalDb};
use crate::recipe::Recipe;
use crate::version_map::VersionMap;

use crate::text::{
    ascii_alnum, ascii_digit, chars_eq, chars_of, first_field, first_field_of, is_ascii_alnum,
    is_ascii_digit, lemma_first_field, lower_all, ascii_lower_seq, push_char, concat, owned,
};

verus! {

// ---------------------------------------------------------------------------
// semver_safe: PEP 440 → semver-ish `major.minor.patch`
// ---------------------------------------------------------------------------

/// Scans `v` keeping digits and at most two `.` (counting from `dots`), stopping at the
/// first other character; gives the kept characters and the final dot count.
pub open spec fn kept_and_dots(v: Seq<char>, dots: int) -> (Seq<char>, int)
    decreases v.len(),
{
    if v.len() == 0 {
        (seq![], dots)
    } else if is_ascii_digit(v[0]) {
        let r = kept_and_dots(v.drop_first(), dots);
        (seq![v[0]] + r.0, r.1)
    } else if v[0] == '.' && dots < 2 {
        let r = kept_and_dots(v.drop_first(), dots + 1);
        (seq!['.'] + r.0, r.1)
    } else {
        (seq![], dots)
    }
}

/// `n` copies of `.0`.
pub open spec fn zero_fields(n: int) -> Seq<char>
    decreases n,
{
    if n <= 0 {
        seq![]
    } else {
        zero_fields(n - 1) + seq!['.', '0']
    }
}

/// `semver_safe(v)`: the leading run of digits and (at most two) dots of `v`, padded with
/// `.0` fields up to three fields.
pub open spec fn semver_safe_spec(v: Seq<char>) -> Seq<char> {
    let r = kept_and_dots(v, 0);
    r.0 + zero_fields(2 - r.1)
}

proof fn lemma_kept_dots_bound(v: Seq<char>, dots: int)
    requires
        0 <= dots <= 2,
    ensures
        dots <= kept_and_dots(v, dots).1 <= 2,
    decreases v.len(),
{
    if v.len() > 0 {
        if is_ascii_digit(v[0]) {
            lemma_kept_dots_bound(v.drop_first(), dots);
        } else if v[0] == '.' && dots < 2 {
            lemma_kept_dots_bound(v.drop_first(), dots + 1);
        }
    }
}

/// PEP 440 → semver-ish: keep `major.minor.patch`, drop trailing markers, pad missing
/// fields with `.0`.
pub fn semver_safe(v: &str) -> (res: String)
    ensures
        res@ == semver_safe_spec(v@),
{
    let cs = chars_of(v);
    let mut out = String::new();
    let mut dots: usize = 0;
    let mut i: usize = 0;
    let mut stopped = false;
    assert(v@.skip(0) =~= v@);
    while i < cs.len() && !stopped
        invariant
            i <= cs.len(),
            cs@ == v@,
            dots <= 2,
            !stopped ==> kept_and_dots(v@, 0) == (
                out@ + kept_and_dots(v@.skip(i as int), dots as int).0,
                kept_and_dots(v@.skip(i as int), dots as int).1,
            ),
            stopped ==> kept_and_dots(v@, 0) == (out@, dots as int),
        decreases (cs.len() - i) * 2 + (if stopped { 0int } else { 1int }),
    {
        let c = cs[i];
        let ghost rest = v@.skip(i as int);
        assert(rest[0] == c);
        assert(rest.drop_first() =~= v@.skip(i + 1));
        if ascii_digit(c) {
            push_char(&mut out, c);
            assert(out@ + kept_and_dots(v@.skip(i + 1), dots as int).0 =~= (out@.drop_last()
                + seq![c] + kept_and_dots(v@.skip(i + 1), dots as int).0));
            i = i + 1;
        } else if c == '.' && dots < 2 {
            push_char(&mut out, c);
            assert(out@ + kept_and_dots(v@.skip(i + 1), dots + 1).0 =~= (out@.drop_last()
                + seq![c] + kept_and_dots(v@.skip(i + 1), dots + 1).0));
            dots = dots + 1;
            i = i + 1;
        } else {
            assert(out@ + seq![] =~= out@);
            stopped = true;
        }
    }
    if !stopped {
        assert(v@.skip(i as int).len() == 0);
        assert(out@ + seq![] =~= out@);
    }
    let ghost kept = out@;
    let ghost d0 = dots as int;
    while dots < 2
        invariant
            d0 <= dots <= 2,
            out@ == kept + zero_fields(dots - d0),
        decreases 2 - dots,
    {
        push_char(&mut out, '.');
        push_char(&mut out, '0');
        assert(out@ =~= kept + zero_fields(dots + 1 - d0));
        dots = dots + 1;
    }
    out
}

// ---------------------------------------------------------------------------
// majors_match
// ---------------------------------------------------------------------------

/// The leading `.`-separated field of `a` and of `b` are equal.
pub open spec fn majors_match_spec(a: Seq<char>, b: Seq<char>) -> bool {
    first_field(a) == first_field(b)
}

/// Whether two version strings agree on their major (first `.`-separated) field.
pub fn majors_match(a: &str, b: &str) -> (res: bool)
    ensures
        res == majors_match_spec(a@, b@),
{
    let am = first_field_of(a);
    let bm = first_field_of(b);
    chars_eq(&am, &bm)
}

// ---------------------------------------------------------------------------
// is_prerelease
// ---------------------------------------------------------------------------

/// PEP 440 pre-release markers.
pub open spec fn pep440_markers() -> Seq<Seq<char>> {
    seq!["a"@, "b"@, "c"@, "rc"@, "alpha"@, "beta"@, "dev"@, "pre"@]
}

/// `m` occurs in `v` at `pos`, right after a release number (a digit, or a digit and a
/// `.` separator), and is followed by the end of `v`, a digit or a `.`.
pub open spec fn marker_hit(v: Seq<char>, pos: int, m: Seq<char>) -> bool {
    &&& 1 <= pos
    &&& pos + m.len() <= v.len()
    &&& v.subrange(pos, pos + m.len()) == m
    &&& (is_ascii_digit(v[pos - 1]) || (v[pos - 1] == '.' && pos >= 2 && is_ascii_digit(v[pos - 2])))
    &&& (pos + m.len() == v.len() || is_ascii_digit(v[pos + m.len()]) || v[pos + m.len()] == '.')
}

/// A PEP 440 pre-release segment: `<digit><marker>(<digit>|.|end)`.
pub open spec fn has_pep440_prerelease(v: Seq<char>) -> bool {
    exists|k: int, pos: int| 0 <= k < 8 && #[trigger] marker_hit(v, pos, pep440_markers()[k])
}

/// A SemVer pre-release: the first `-` sits between a digit and an ASCII letter or digit.
pub open spec fn has_semver_prerelease(v: Seq<char>) -> bool {
    exists|h: int|
        0 <= h < v.len() && #[trigger] v[h] == '-' && (forall|j: int| 0 <= j < h ==> v[j] != '-')
            && 1 <= h && is_ascii_digit(v[h - 1]) && h + 1 < v.len() && is_ascii_alnum(v[h + 1])
}

/// Whether a version string (compared case-insensitively) marks a pre-release.
pub open spec fn is_prerelease_spec(version: Seq<char>) -> bool {
    let v = ascii_lower_seq(version);
    has_pep440_prerelease(v) || has_semver_prerelease(v)
}

fn marker_hit_at(v: &Vec<char>, pos: usize, m: &Vec<char>) -> (res: bool)
    ensures
        res == marker_hit(v@, pos as int, m@),
{
    if pos < 1 || pos > v.len() || m.len() > v.len() - pos {
        return false;
    }
    let mut t: usize = 0;
    while t < m.len()
        invariant
            t <= m.len(),
            1 <= pos,
            pos + m.len() <= v.len(),
            forall|j: int| 0 <= j < t ==> v@[pos + j] == m@[j],
        decreases m.len() - t,
    {
        if v[pos + t] != m[t] {
            assert(v@.subrange(pos as int, pos + m.len())[t as int] != m@[t as int]);
            return false;
        }
        t = t + 1;
    }
    assert(v@.subrange(pos as int, pos + m.len()) =~= m@);
    let after_number = ascii_digit(v[pos - 1]) || (v[pos - 1] == '.' && pos >= 2 && ascii_digit(
        v[pos - 2],
    ));
    if !after_number {
        return false;
    }
    let after = pos + m.len();
    after == v.len() || ascii_digit(v[after]) || v[after] == '.'
}

/// Whether a version string is a pre-release, in PEP 440 shape `<N>[.]<marker>[<N>]`
/// (`1.0a1`, `2.5b2`, `3.1rc1`, `4.0.dev0`) or SemVer shape (`1.0.0-rc.1`). Markers must
/// follow the release number, so local version labels such as `1.0.0+abi3` are not
/// mistaken for pre-releases.
pub fn is_prerelease(version: &str) -> (res: bool)
    ensures
        res == is_prerelease_spec(version@),
{
    let raw = chars_of(version);
    let v = lower_all(&raw);
    let ghost lv = ascii_lower_seq(version@);
    let markers: Vec<Vec<char>> = vec![
        chars_of("a"),
        chars_of("b"),
        chars_of("c"),
        chars_of("rc"),
        chars_of("alpha"),
        chars_of("beta"),
        chars_of("dev"),
        chars_of("pre"),
    ];
    assert(markers@.len() == 8);
    assert forall|k: int| 0 <= k < 8 implies markers@[k]@ == pep440_markers()[k] by {}
    let mut k: usize = 0;
    while k < markers.len()
        invariant
            k <= markers.len(),
            markers@.len() == 8,
            v@ == lv,
            lv == ascii_lower_seq(version@),
            forall|q: int| 0 <= q < 8 ==> markers@[q]@ == pep440_markers()[q],
            forall|q: int, p: int| 0 <= q < k ==> !#[trigger] marker_hit(lv, p, pep440_markers()[q]),
        decreases markers.len() - k,
    {
        let mut pos: usize = 1;
        while pos < v.len()
            invariant
                1 <= pos,
                pos <= v.len() || v.len() == 0,
                k < 8,
                markers@.len() == 8,
                v@ == lv,
                lv == ascii_lower_seq(version@),
                markers@[k as int]@ == pep440_markers()[k as int],
                forall|p: int| p < pos ==> !#[trigger] marker_hit(lv, p, pep440_markers()[k as int]),
            decreases v.len() + 1 - pos,
        {
            if marker_hit_at(&v, pos, &markers[k]) {
                assert(marker_hit(lv, pos as int, pep440_markers()[k as int]));
                assert(has_pep440_prerelease(lv));
                return true;
            }
            pos = pos + 1;
        }
        if marker_hit_at(&v, v.len(), &markers[k]) {
            assert(marker_hit(lv, v.len() as int, pep440_markers()[k as int]));
            assert(has_pep440_prerelease(lv));
            return true;
        }
        k = k + 1;
    }
    assert(!has_pep440_prerelease(lv));
    let mut h: usize = 0;
    while h < v.len() && v[h] != '-'
        invariant
            h <= v.len(),
            v@ == lv,
            forall|j: int| 0 <= j < h ==> lv[j] != '-',
        decreases v.len() - h,
    {
        h = h + 1;
    }
    if h == v.len() {
        return false;
    }
    let res = h >= 1 && ascii_digit(v[h - 1]) && h + 1 < v.len() && ascii_alnum(v[h + 1]);
    if res {
        assert(lv[h as int] == '-');
    } else {
        assert forall|h2: int| 0 <= h2 < lv.len() && #[trigger] lv[h2] == '-' && (forall|j: int|
            0 <= j < h2 ==> lv[j] != '-') implies !(1 <= h2 && is_ascii_digit(lv[h2 - 1]) && h2
            + 1 < lv.len() && is_ascii_alnum(lv[h2 + 1])) by {
            assert(h2 == h);
        }
    }
    res
}

// ---------------------------------------------------------------------------
// semver parsing (semver crate) and the compatibility checks
// ---------------------------------------------------------------------------

/// Splits `s` at every `.`.
pub open spec fn dot_fields(s: Seq<char>) -> Seq<Seq<char>>
    decreases s.len(),
{
    if first_field(s).len() >= s.len() {
        seq![s]
    } else {
        seq![first_field(s)] + dot_fields(s.skip(first_field(s).len() as int + 1))
    }
}

/// The number that a string of decimal digits denotes.
pub open spec fn digits_value(f: Seq<char>) -> nat
    decreases f.len(),
{
    if f.len() == 0 {
        0
    } else {
        digits_value(f.drop_last()) * 10 + ((f.last() as nat) - ('0' as nat)) as nat
    }
}

/// A semver numeric identifier: decimal digits, no leading zero, within `u64`.
pub open spec fn numeric_field(f: Seq<char>) -> bool {
    &&& f.len() > 0
    &&& forall|i: int| 0 <= i < f.len() ==> is_ascii_digit(#[trigger] f[i])
    &&& (f.len() == 1 || f[0] != '0')
    &&& digits_value(f) <= u64::MAX
}

/// Only ASCII digits and dots.
pub open spec fn digits_and_dots(s: Seq<char>) -> bool {
    forall|i: int| 0 <= i < s.len() ==> is_ascii_digit(#[trigger] s[i]) || s[i] == '.'
}

/// Major and minor of a plain `MAJOR.MINOR.PATCH` string, as semver parses it.
pub open spec fn plain_major_minor(s: Seq<char>) -> Option<(u64, u64)> {
    let f = dot_fields(s);
    if f.len() == 3 && numeric_field(f[0]) && numeric_field(f[1]) && numeric_field(f[2]) {
        Some((digits_value(f[0]) as u64, digits_value(f[1]) as u64))
    } else {
        None
    }
}

/// Major and minor of the version that `semver::Version::parse` reads from `text`, if it
/// accepts it.
pub uninterp spec fn semver_major_minor(text: Seq<char>) -> Option<(u64, u64)>;

/// Calls `semver::Version::parse` and keeps `major` and `minor` of an accepted version.
/// Claimed of it: the result is a function of `text` alone; on a string of ASCII digits
/// and dots, `parse` accepts exactly three `.`-separated numeric identifiers (non-empty,
/// no leading zero, at most `u64::MAX`), as `Version::from_str` and `numeric_identifier`
/// in the crate's `parse.rs` show. Pre-release and build syntax is not described.
#[verifier::external_body]
fn parse_major_minor(text: &str) -> (res: Option<(u64, u64)>)
    ensures
        res == semver_major_minor(text@),
        digits_and_dots(text@) ==> res == plain_major_minor(text@),
{
    semver::Version::parse(text).ok().map(|v| (v.major, v.minor))
}

proof fn lemma_kept_digits_and_dots(v: Seq<char>, dots: int)
    ensures
        digits_and_dots(kept_and_dots(v, dots).0),
    decreases v.len(),
{
    if v.len() > 0 {
        if is_ascii_digit(v[0]) {
            lemma_kept_digits_and_dots(v.drop_first(), dots);
            let r = kept_and_dots(v.drop_first(), dots);
            assert forall|i: int| 0 <= i < (seq![v[0]] + r.0).len() implies is_ascii_digit(
                #[trigger] (seq![v[0]] + r.0)[i],
            ) || (seq![v[0]] + r.0)[i] == '.' by {
                if i > 0 {
                    assert((seq![v[0]] + r.0)[i] == r.0[i - 1]);
                }
            }
        } else if v[0] == '.' && dots < 2 {
            lemma_kept_digits_and_dots(v.drop_first(), dots + 1);
            let r = kept_and_dots(v.drop_first(), dots + 1);
            assert forall|i: int| 0 <= i < (seq!['.'] + r.0).len() implies is_ascii_digit(
                #[trigger] (seq!['.'] + r.0)[i],
            ) || (seq!['.'] + r.0)[i] == '.' by {
                if i > 0 {
                    assert((seq!['.'] + r.0)[i] == r.0[i - 1]);
                }
            }
        }
    }
}

proof fn lemma_zero_fields(n: int)
    ensures
        digits_and_dots(zero_fields(n)),
    decreases n,
{
    if n > 0 {
        lemma_zero_fields(n - 1);
        assert forall|i: int| 0 <= i < zero_fields(n).len() implies is_ascii_digit(
            #[trigger] zero_fields(n)[i],
        ) || zero_fields(n)[i] == '.' by {
            if i < zero_fields(n - 1).len() {
                assert(zero_fields(n)[i] == zero_fields(n - 1)[i]);
            }
        }
    }
}

/// `semver_safe` only ever produces digits and dots.
pub proof fn lemma_semver_safe_digits_and_dots(v: Seq<char>)
    ensures
        digits_and_dots(semver_safe_spec(v)),
{
    let r = kept_and_dots(v, 0);
    lemma_kept_digits_and_dots(v, 0);
    lemma_zero_fields(2 - r.1);
    let s = semver_safe_spec(v);
    assert forall|i: int| 0 <= i < s.len() implies is_ascii_digit(#[trigger] s[i]) || s[i] == '.' by {
        if i < r.0.len() {
            assert(s[i] == r.0[i]);
        } else {
            assert(s[i] == zero_fields(2 - r.1)[i - r.0.len()]);
        }
    }
}

/// The number of `.` in `s`.
pub open spec fn dot_count(s: Seq<char>) -> int
    decreases s.len(),
{
    if s.len() == 0 {
        0
    } else {
        (if s[0] == '.' {
            1int
        } else {
            0int
        }) + dot_count(s.drop_first())
    }
}

proof fn lemma_dot_count_concat(a: Seq<char>, b: Seq<char>)
    ensures
        dot_count(a + b) == dot_count(a) + dot_count(b),
    decreases a.len(),
{
    if a.len() > 0 {
        assert((a + b).drop_first() =~= a.drop_first() + b);
        lemma_dot_count_concat(a.drop_first(), b);
    } else {
        assert(a + b =~= b);
    }
}

proof fn lemma_kept_dot_count(v: Seq<char>, dots: int)
    ensures
        kept_and_dots(v, dots).1 == dots + dot_count(kept_and_dots(v, dots).0),
    decreases v.len(),
{
    if v.len() > 0 {
        if is_ascii_digit(v[0]) {
            let r = kept_and_dots(v.drop_first(), dots);
            lemma_kept_dot_count(v.drop_first(), dots);
            assert((seq![v[0]] + r.0).drop_first() =~= r.0);
        } else if v[0] == '.' && dots < 2 {
            let r = kept_and_dots(v.drop_first(), dots + 1);
            lemma_kept_dot_count(v.drop_first(), dots + 1);
            assert((seq!['.'] + r.0).drop_first() =~= r.0);
        }
    }
}

proof fn lemma_zero_fields_dots(n: int)
    ensures
        dot_count(zero_fields(n)) == if n > 0 {
            n
        } else {
            0
        },
    decreases n,
{
    if n > 0 {
        lemma_zero_fields_dots(n - 1);
        lemma_dot_count_concat(zero_fields(n - 1), seq!['.', '0']);
        assert(seq!['.', '0'].drop_first() =~= seq!['0']);
        assert(seq!['0'].drop_first() =~= Seq::<char>::empty());
        assert(dot_count(Seq::<char>::empty()) == 0);
        assert(dot_count(seq!['0']) == 0);
        assert(dot_count(seq!['.', '0']) == 1);
    } else {
        assert(dot_count(zero_fields(n)) == 0);
    }
}

proof fn lemma_dot_count_nonneg(s: Seq<char>)
    ensures
        dot_count(s) >= 0,
    decreases s.len(),
{
    if s.len() > 0 {
        lemma_dot_count_nonneg(s.drop_first());
    }
}

/// Digits and dots with no more dots than the scan still allows are kept whole.
proof fn lemma_kept_whole(w: Seq<char>, dots: int)
    requires
        digits_and_dots(w),
        0 <= dots,
        dots + dot_count(w) <= 2,
    ensures
        kept_and_dots(w, dots) == (w, dots + dot_count(w)),
    decreases w.len(),
{
    if w.len() > 0 {
        let t = w.drop_first();
        assert forall|i: int| 0 <= i < t.len() implies is_ascii_digit(#[trigger] t[i]) || t[i] == '.' by {
            assert(t[i] == w[i + 1]);
        }
        assert(is_ascii_digit(w[0]) || w[0] == '.');
        lemma_dot_count_nonneg(t);
        if is_ascii_digit(w[0]) {
            assert(w[0] != '.');
            lemma_kept_whole(t, dots);
        } else {
            lemma_kept_whole(t, dots + 1);
        }
        assert(seq![w[0]] + t =~= w);
    }
}

/// `semver_safe` always gives three fields (exactly two dots) of digits, and normalising
/// twice changes nothing: `semver_safe(semver_safe(v)) == semver_safe(v)`.
pub proof fn law_semver_safe_is_three_fields_and_idempotent(v: Seq<char>)
    ensures
        dot_count(semver_safe_spec(v)) == 2,
        digits_and_dots(semver_safe_spec(v)),
        semver_safe_spec(semver_safe_spec(v)) == semver_safe_spec(v),
{
    let r = kept_and_dots(v, 0);
    let s = semver_safe_spec(v);
    lemma_kept_dots_bound(v, 0);
    lemma_kept_dot_count(v, 0);
    lemma_zero_fields_dots(2 - r.1);
    lemma_dot_count_concat(r.0, zero_fields(2 - r.1));
    lemma_semver_safe_digits_and_dots(v);
    lemma_kept_whole(s, 0);
    lemma_zero_fields_dots(0);
    assert(zero_fields(0) =~= Seq::<char>::empty());
    assert(s + zero_fields(0) =~= s);
}

/// Major and minor of a version string after `semver_safe` normalisation, if semver
/// accepts it.
pub open spec fn safe_major_minor(v: Seq<char>) -> Option<(u64, u64)> {
    plain_major_minor(semver_safe_spec(v))
}

fn safe_major_minor_of(v: &str) -> (res: Option<(u64, u64)>)
    ensures
        res == safe_major_minor(v@),
{
    let s = semver_safe(v);
    proof {
        lemma_semver_safe_digits_and_dots(v@);
    }
    parse_major_minor(s.as_str())
}

pub open spec fn django_below_baseline_warning(django: Seq<char>) -> Seq<char> {
    "Django "@ + django
        + " is below the 6.x baseline django-bakery targets; some templates may use 6.x-only APIs"@
}

pub open spec fn stubs_mismatch_warning(stubs: Seq<char>, django: Seq<char>) -> Seq<char> {
    "django-stubs "@ + stubs + " may not match Django "@ + django
        + "; check the django-stubs release notes"@
}

pub open spec fn celery_below_warning(celery: Seq<char>) -> Seq<char> {
    "Celery "@ + celery + " is below 5.4; Django 6 async ORM compatibility requires 5.4+"@
}

/// The compatibility warnings for a recipe and a resolved version table, in order:
/// Django below 6, django-stubs major differing from Django's, Celery (when used) below 5.4.
pub open spec fn compat_warnings(r: Recipe, m: Map<Seq<char>, Seq<char>>) -> Seq<Seq<char>> {
    let dj = m["py.django"@];
    let w1 = if m.contains_key("py.django"@) && (safe_major_minor(dj) matches Some(mm)
        && mm.0 < 6) {
        seq![django_below_baseline_warning(dj)]
    } else {
        seq![]
    };
    let w2 = if m.contains_key("py.django"@) && m.contains_key("py.django-stubs"@)
        && !majors_match_spec(dj, m["py.django-stubs"@]) {
        seq![stubs_mismatch_warning(m["py.django-stubs"@], dj)]
    } else {
        seq![]
    };
    let cel = m["py.celery"@];
    let w3 = if r.use_celery && m.contains_key("py.celery"@) && (safe_major_minor(cel) matches Some(
        mm,
    ) && (mm.0 < 5 || (mm.0 == 5 && mm.1 < 4))) {
        seq![celery_below_warning(cel)]
    } else {
        seq![]
    };
    w1 + w2 + w3
}

/// Compatibility checks — known incompatible version combinations.
pub fn compat_check(recipe: &Recipe, versions: &VersionMap) -> (res: Vec<String>)
    ensures
        res@.map_values(|s: String| s@) == compat_warnings(*recipe, versions@),
{
    let mut warnings: Vec<String> = Vec::new();
    let ghost m = versions@;
    let ghost w1: Seq<Seq<char>> = seq![];
    let ghost w2: Seq<Seq<char>> = seq![];
    let ghost w3: Seq<Seq<char>> = seq![];
    match versions.get("py.django") {
        Some(django) => {
            match safe_major_minor_of(django.as_str()) {
                Some(mm) => {
                    if mm.0 < 6 {
                        let a = concat("Django ", django.as_str());
                        let w = concat(
                            a.as_str(),
                            " is below the 6.x baseline django-bakery targets; some templates may use 6.x-only APIs",
                        );
                        proof {
                            w1 = seq![w@];
                        }
                        warnings.push(w);
                    }
                },
                None => {},
            }
            match versions.get("py.django-stubs") {
                Some(stubs) => {
                    if !majors_match(django.as_str(), stubs.as_str()) {
                        let a = concat("django-stubs ", stubs.as_str());
                        let b = concat(a.as_str(), " may not match Django ");
                        let c = concat(b.as_str(), django.as_str());
                        let w = concat(c.as_str(), "; check the django-stubs release notes");
                        proof {
                            w2 = seq![w@];
                        }
                        warnings.push(w);
                    }
                },
                None => {},
            }
        },
        None => {},
    }
    if recipe.use_celery {
        match versions.get("py.celery") {
            Some(c) => {
                match safe_major_minor_of(c.as_str()) {
                    Some(mm) => {
                        if mm.0 < 5 || (mm.0 == 5 && mm.1 < 4) {
                            let a = concat("Celery ", c.as_str());
                            let w = concat(
                                a.as_str(),
                                " is below 5.4; Django 6 async ORM compatibility requires 5.4+",
                            );
                            proof {
                                w3 = seq![w@];
                            }
                            warnings.push(w);
                        }
                    },
                    None => {},
                }
            },
            None => {},
        }
    }
    assert(warnings@.map_values(|s: String| s@) =~= w1 + w2 + w3);
    warnings
}

// ---------------------------------------------------------------------------
// Which packages a recipe needs, the bundled defaults, and resolution
// ---------------------------------------------------------------------------

/// The version-table key of a PyPI package.
pub open spec fn py_key(name: Seq<char>) -> Seq<char> {
    "py."@ + name
}

/// The version-table key of an npm package.
pub open spec fn npm_key(name: Seq<char>) -> Seq<char> {
    "npm."@ + name
}

/// Bundled defaults snapshot — the `latest` on PyPI / npm as of 2026-05-27. Used offline
/// and as the fallback when a registry lookup fails. Every value here must exist on the
/// upstream registry.
pub open spec fn default_versions() -> Map<Seq<char>, Seq<char>> {
    Map::empty()
        .insert(py_key("django"@), "6.0.0"@)
        .insert(py_key("django-environ"@), "0.12.0"@)
        .insert(py_key("django-allauth"@), "65.4.0"@)
        .insert(py_key("django-csp"@), "4.0"@)
        .insert(py_key("django-cors-headers"@), "4.6.0"@)
        .insert(py_key("django-ratelimit"@), "4.1.0"@)
        .insert(py_key("django-extensions"@), "4.0"@)
        .insert(py_key("django-stubs"@), "6.0.0"@)
        .insert(py_key("argon2-cffi"@), "23.1.0"@)
        .insert(py_key("gunicorn"@), "23.0.0"@)
        .insert(py_key("uvicorn"@), "0.35.0"@)
        .insert(py_key("whitenoise"@), "6.8.2"@)
        .insert(py_key("pytest"@), "8.3.4"@)
        .insert(py_key("pytest-django"@), "4.9.0"@)
        .insert(py_key("ruff"@), "0.9.0"@)
        .insert(py_key("factory-boy"@), "3.3.1"@)
        .insert(py_key("celery"@), "5.5.0"@)
        .insert(py_key("django-celery-beat"@), "2.7.0"@)
        .insert(py_key("django-celery-results"@), "2.6.0"@)
        .insert(py_key("flower"@), "2.0.1"@)
        .insert(py_key("sentry-sdk"@), "2.20.0"@)
        .insert(py_key("structlog"@), "25.1.0"@)
        .insert(py_key("django-structlog"@), "9.0.0"@)
        .insert(py_key("opentelemetry-sdk"@), "1.30.0"@)
        .insert(py_key("django-ninja"@), "1.4.0"@)
        .insert(py_key("djangorestframework"@), "3.16.0"@)
        .insert(py_key("drf-spectacular"@), "0.28.0"@)
        .insert(py_key("strawberry-graphql"@), "0.316.0"@)
        .insert(py_key("strawberry-graphql-django"@), "0.86.0"@)
        .insert(py_key("graphene-django"@), "3.2.3"@)
        .insert(py_key("psycopg"@), "3.2.4"@)
        .insert(py_key("pymysql"@), "1.1.0"@)
        .insert(py_key("pydantic"@), "2.10.0"@)
        .insert(py_key("django-tenants"@), "3.10.1"@)
        .insert(npm_key("react"@), "19.2.5"@)
        .insert(npm_key("react-dom"@), "19.2.5"@)
        .insert(npm_key("react-router"@), "7.15.0"@)
        .insert(npm_key("vite"@), "8.0.14"@)
        .insert(npm_key("typescript"@), "6.0.3"@)
        .insert(npm_key("@vitejs/plugin-react"@), "6.0.2"@)
        .insert(npm_key("@vitejs/plugin-vue"@), "6.0.7"@)
        .insert(npm_key("@radix-ui/themes"@), "3.3.0"@)
        .insert(npm_key("@radix-ui/react-icons"@), "1.3.2"@)
        .insert(npm_key("@radix-ui/colors"@), "3.0.0"@)
        .insert(npm_key("@radix-ui/react-dialog"@), "1.1.2"@)
        .insert(npm_key("tailwindcss"@), "4.3.0"@)
        .insert(npm_key("@tailwindcss/vite"@), "4.3.0"@)
        .insert(npm_key("@tailwindcss/cli"@), "4.3.0"@)
        .insert(npm_key("nuxt"@), "4.4.6"@)
        .insert(npm_key("vue"@), "3.5.35"@)
        .insert(npm_key("vue-router"@), "4.5.0"@)
        .insert(npm_key("pinia"@), "3.0.4"@)
        .insert(npm_key("@pinia/nuxt"@), "0.11.3"@)
        .insert(npm_key("@vueuse/core"@), "14.3.0"@)
        .insert(npm_key("@vueuse/nuxt"@), "14.3.0"@)
        .insert(npm_key("@vue/test-utils"@), "2.4.10"@)
        .insert(npm_key("next"@), "16.2.6"@)
        .insert(npm_key("eslint-config-next"@), "16.2.6"@)
        .insert(npm_key("htmx.org"@), "2.0.4"@)
        .insert(npm_key("alpinejs"@), "3.14.0"@)
        .insert(npm_key("bootstrap"@), "5.3.6"@)
        .insert(npm_key("vitest"@), "4.1.7"@)
        .insert(npm_key("@vitest/coverage-v8"@), "4.1.7"@)
        .insert(npm_key("jsdom"@), "29.1.1"@)
        .insert(npm_key("happy-dom"@), "20.9.0"@)
        .insert(npm_key("eslint"@), "10.4.0"@)
        .insert(npm_key("@nuxt/eslint"@), "1.15.2"@)
        .insert(npm_key("@nuxt/test-utils"@), "4.0.3"@)
        .insert(npm_key("zod"@), "4.4.3"@)
        .insert(npm_key("zustand"@), "5.0.13"@)
        .insert(npm_key("@tanstack/react-query"@), "5.100.14"@)
        .insert(npm_key("@playwright/test"@), "1.60.0"@)
        .insert(npm_key("openapi-typescript"@), "7.13.0"@)
        .insert(npm_key("prettier"@), "3.8.3"@)
}

fn pin(m: &mut VersionMap, pypi: bool, name: &str, version: &str)
    ensures
        final(m)@ == old(m)@.insert(
            if pypi {
                py_key(name@)
            } else {
                npm_key(name@)
            },
            version@,
        ),
{
    let key = if pypi {
        concat("py.", name)
    } else {
        concat("npm.", name)
    };
    m.insert(key, owned(version));
}

/// The bundled default version table.
pub fn defaults() -> (res: VersionMap)
    ensures
        res@ == default_versions(),
{
    let mut m = VersionMap::new();
    pin(&mut m, true, "django", "6.0.0");
    pin(&mut m, true, "django-environ", "0.12.0");
    pin(&mut m, true, "django-allauth", "65.4.0");
    pin(&mut m, true, "django-csp", "4.0");
    pin(&mut m, true, "django-cors-headers", "4.6.0");
    pin(&mut m, true, "django-ratelimit", "4.1.0");
    pin(&mut m, true, "django-extensions", "4.0");
    pin(&mut m, true, "django-stubs", "6.0.0");
    pin(&mut m, true, "argon2-cffi", "23.1.0");
    pin(&mut m, true, "gunicorn", "23.0.0");
    pin(&mut m, true, "uvicorn", "0.35.0");
    pin(&mut m, true, "whitenoise", "6.8.2");
    pin(&mut m, true, "pytest", "8.3.4");
    pin(&mut m, true, "pytest-django", "4.9.0");
    pin(&mut m, true, "ruff", "0.9.0");
    pin(&mut m, true, "factory-boy", "3.3.1");
    pin(&mut m, true, "celery", "5.5.0");
    pin(&mut m, true, "django-celery-beat", "2.7.0");
    pin(&mut m, true, "django-celery-results", "2.6.0");
    pin(&mut m, true, "flower", "2.0.1");
    pin(&mut m, true, "sentry-sdk", "2.20.0");
    pin(&mut m, true, "structlog", "25.1.0");
    pin(&mut m, true, "django-structlog", "9.0.0");
    pin(&mut m, true, "opentelemetry-sdk", "1.30.0");
    pin(&mut m, true, "django-ninja", "1.4.0");
    pin(&mut m, true, "djangorestframework", "3.16.0");
    pin(&mut m, true, "drf-spectacular", "0.28.0");
    pin(&mut m, true, "strawberry-graphql", "0.316.0");
    pin(&mut m, true, "strawberry-graphql-django", "0.86.0");
    pin(&mut m, true, "graphene-django", "3.2.3");
    pin(&mut m, true, "psycopg", "3.2.4");
    pin(&mut m, true, "pymysql", "1.1.0");
    pin(&mut m, true, "pydantic", "2.10.0");
    pin(&mut m, true, "django-tenants", "3.10.1");
    pin(&mut m, false, "react", "19.2.5");
    pin(&mut m, false, "react-dom", "19.2.5");
    pin(&mut m, false, "react-router", "7.15.0");
    pin(&mut m, false, "vite", "8.0.14");
    pin(&mut m, false, "typescript", "6.0.3");
    pin(&mut m, false, "@vitejs/plugin-react", "6.0.2");
    pin(&mut m, false, "@vitejs/plugin-vue", "6.0.7");
    pin(&mut m, false, "@radix-ui/themes", "3.3.0");
    pin(&mut m, false, "@radix-ui/react-icons", "1.3.2");
    pin(&mut m, false, "@radix-ui/colors", "3.0.0");
    pin(&mut m, false, "@radix-ui/react-dialog", "1.1.2");
    pin(&mut m, false, "tailwindcss", "4.3.0");
    pin(&mut m, false, "@tailwindcss/vite", "4.3.0");
    pin(&mut m, false, "@tailwindcss/cli", "4.3.0");
    pin(&mut m, false, "nuxt", "4.4.6");
    pin(&mut m, false, "vue", "3.5.35");
    pin(&mut m, false, "vue-router", "4.5.0");
    pin(&mut m, false, "pinia", "3.0.4");
    pin(&mut m, false, "@pinia/nuxt", "0.11.3");
    pin(&mut m, false, "@vueuse/core", "14.3.0");
    pin(&mut m, false, "@vueuse/nuxt", "14.3.0");
    pin(&mut m, false, "@vue/test-utils", "2.4.10");
    pin(&mut m, false, "next", "16.2.6");
    pin(&mut m, false, "eslint-config-next", "16.2.6");
    pin(&mut m, false, "htmx.org", "2.0.4");
    pin(&mut m, false, "alpinejs", "3.14.0");
    pin(&mut m, false, "bootstrap", "5.3.6");
    pin(&mut m, false, "vitest", "4.1.7");
    pin(&mut m, false, "@vitest/coverage-v8", "4.1.7");
    pin(&mut m, false, "jsdom", "29.1.1");
    pin(&mut m, false, "happy-dom", "20.9.0");
    pin(&mut m, false, "eslint", "10.4.0");
    pin(&mut m, false, "@nuxt/eslint", "1.15.2");
    pin(&mut m, false, "@nuxt/test-utils", "4.0.3");
    pin(&mut m, false, "zod", "4.4.3");
    pin(&mut m, false, "zustand", "5.0.13");
    pin(&mut m, false, "@tanstack/react-query", "5.100.14");
    pin(&mut m, false, "@playwright/test", "1.60.0");
    pin(&mut m, false, "openapi-typescript", "7.13.0");
    pin(&mut m, false, "prettier", "3.8.3");
    m
}

/// The views of a list of static names.
pub open spec fn names(v: Seq<&'static str>) -> Seq<Seq<char>> {
    v.map_values(|s: &'static str| s@)
}

/// Packages every generated project pins.
pub open spec fn core_pypi() -> Seq<Seq<char>> {
    seq![
        "django"@, "django-environ"@, "django-allauth"@, "django-csp"@, "django-cors-headers"@,
        "django-ratelimit"@, "argon2-cffi"@, "gunicorn"@, "uvicorn"@, "whitenoise"@, "pytest"@,
        "pytest-django"@, "ruff"@, "factory-boy"@,
    ]
}

pub open spec fn api_pypi(api: ApiLayer) -> Seq<Seq<char>> {
    match api {
        ApiLayer::Ninja => seq!["django-ninja"@],
        ApiLayer::Drf => seq!["djangorestframework"@, "drf-spectacular"@],
        ApiLayer::GraphqlStrawberry => seq!["strawberry-graphql"@, "strawberry-graphql-django"@],
        ApiLayer::GraphqlGraphene => seq!["graphene-django"@],
        ApiLayer::Nothing => seq![],
    }
}

/// The PyPI packages whose versions a recipe's templates pin, in lookup order.
pub open spec fn wanted_pypi(r: Recipe) -> Seq<Seq<char>> {
    core_pypi() + celery_pypi(r) + sentry_pypi(r) + observability_pypi(r) + api_pypi(r.api_layer)
        + postgres_pypi(r) + tenants_pypi(r)
}

pub open spec fn frontend_npm(r: Recipe) -> Seq<Seq<char>> {
    match r.frontend {
        Frontend::React => seq!["react"@, "react-dom"@, "vite"@, "typescript"@, "@vitejs/plugin-react"@]
            + (if r.radix_flavor == Some(RadixFlavor::Themes) {
            seq!["@radix-ui/themes"@, "@radix-ui/react-icons"@, "@radix-ui/colors"@]
        } else if r.radix_flavor == Some(RadixFlavor::Primitives) {
            seq!["@radix-ui/react-dialog"@, "tailwindcss"@, "@tailwindcss/vite"@]
        } else {
            seq![]
        }),
        Frontend::Nuxt => seq!["nuxt"@, "vue"@, "typescript"@, "@tailwindcss/vite"@],
        Frontend::Vue => seq![
            "vue"@,
            "vue-router"@,
            "pinia"@,
            "@vitejs/plugin-vue"@,
            "vite"@,
            "typescript"@,
        ],
        Frontend::Next => seq!["next"@, "react"@, "react-dom"@, "eslint-config-next"@, "typescript"@],
        Frontend::HtmxAlpine => seq!["htmx.org"@, "alpinejs"@],
        _ => seq![],
    }
}

/// The npm packages whose versions a recipe's templates pin, in lookup order.
pub open spec fn wanted_npm(r: Recipe) -> Seq<Seq<char>> {
    frontend_npm(r) + (if r.css_framework == CssFramework::Tailwind {
        seq!["tailwindcss"@, "@tailwindcss/cli"@]
    } else {
        seq![]
    }) + (if r.css_framework == CssFramework::Bootstrap { seq!["bootstrap"@] } else { seq![] })
}

/// The registry packages a recipe needs resolved.
pub struct Wanted {
    pub pypi: Vec<&'static str>,
    pub npm: Vec<&'static str>,
}

fn extend(v: &mut Vec<&'static str>, more: Vec<&'static str>)
    ensures
        names(final(v)@) == names(old(v)@) + names(more@),
{
    let ghost start = v@;
    let mut i: usize = 0;
    while i < more.len()
        invariant
            i <= more.len(),
            v@ == start + more@.take(i as int),
        decreases more.len() - i,
    {
        v.push(more[i]);
        assert(v@ =~= start + more@.take(i + 1));
        i = i + 1;
    }
    assert(more@.take(more.len() as int) =~= more@);
    assert(names(v@) =~= names(start) + names(more@));
}

/// The packages whose versions the recipe's templates pin.
pub fn relevant_packages(r: &Recipe) -> (res: Wanted)
    ensures
        names(res.pypi@) == wanted_pypi(*r),
        names(res.npm@) == wanted_npm(*r),
{
    Wanted { pypi: pypi_packages(r), npm: npm_packages(r) }
}

fn core_pypi_vec() -> (res: Vec<&'static str>)
    ensures
        names(res@) == core_pypi(),
{
    let v: Vec<&'static str> = vec![
        "django",
        "django-environ",
        "django-allauth",
        "django-csp",
        "django-cors-headers",
        "django-ratelimit",
        "argon2-cffi",
        "gunicorn",
        "uvicorn",
        "whitenoise",
        "pytest",
        "pytest-django",
        "ruff",
        "factory-boy",
    ];
    assert(names(v@) =~= core_pypi());
    v
}

pub open spec fn celery_pypi(r: Recipe) -> Seq<Seq<char>> {
    if r.use_celery { seq!["celery"@, "django-celery-beat"@, "flower"@] } else { seq![] }
}

pub open spec fn sentry_pypi(r: Recipe) -> Seq<Seq<char>> {
    if r.use_sentry { seq!["sentry-sdk"@] } else { seq![] }
}

pub open spec fn observability_pypi(r: Recipe) -> Seq<Seq<char>> {
    if r.use_observability {
        seq!["structlog"@, "django-structlog"@, "opentelemetry-sdk"@]
    } else {
        seq![]
    }
}

pub open spec fn postgres_pypi(r: Recipe) -> Seq<Seq<char>> {
    if r.relational_db == RelationalDb::Postgres { seq!["psycopg"@] } else { seq![] }
}

pub open spec fn tenants_pypi(r: Recipe) -> Seq<Seq<char>> {
    if r.multi_tenant { seq!["django-tenants"@] } else { seq![] }
}

fn celery_vec(r: &Recipe) -> (res: Vec<&'static str>)
    ensures
        names(res@) == celery_pypi(*r),
{
    let v: Vec<&'static str> = if r.use_celery {
        vec!["celery", "django-celery-beat", "flower"]
    } else {
        Vec::new()
    };
    assert(names(v@) =~= celery_pypi(*r));
    v
}

fn sentry_vec(r: &Recipe) -> (res: Vec<&'static str>)
    ensures
        names(res@) == sentry_pypi(*r),
{
    let v: Vec<&'static str> = if r.use_sentry {
        vec!["sentry-sdk"]
    } else {
        Vec::new()
    };
    assert(names(v@) =~= sentry_pypi(*r));
    v
}

fn observability_vec(r: &Recipe) -> (res: Vec<&'static str>)
    ensures
        names(res@) == observability_pypi(*r),
{
    let v: Vec<&'static str> = if r.use_observability {
        vec!["structlog", "django-structlog", "opentelemetry-sdk"]
    } else {
        Vec::new()
    };
    assert(names(v@) =~= observability_pypi(*r));
    v
}

fn api_vec(r: &Recipe) -> (res: Vec<&'static str>)
    ensures
        names(res@) == api_pypi(r.api_layer),
{
    let v: Vec<&'static str> = match r.api_layer {
        ApiLayer::Ninja => vec!["django-ninja"],
        ApiLayer::Drf => vec!["djangorestframework", "drf-spectacular"],
        ApiLayer::GraphqlStrawberry => vec!["strawberry-graphql", "strawberry-graphql-django"],
        ApiLayer::GraphqlGraphene => vec!["graphene-django"],
        ApiLayer::Nothing => Vec::new(),
    };
    assert(names(v@) =~= api_pypi(r.api_layer));
    v
}

fn postgres_vec(r: &Recipe) -> (res: Vec<&'static str>)
    ensures
        names(res@) == postgres_pypi(*r),
{
    let v: Vec<&'static str> = if r.is_postgres() {
        vec!["psycopg"]
    } else {
        Vec::new()
    };
    assert(names(v@) =~= postgres_pypi(*r));
    v
}

fn tenants_vec(r: &Recipe) -> (res: Vec<&'static str>)
    ensures
        names(res@) == tenants_pypi(*r),
{
    let v: Vec<&'static str> = if r.multi_tenant {
        vec!["django-tenants"]
    } else {
        Vec::new()
    };
    assert(names(v@) =~= tenants_pypi(*r));
    v
}

fn pypi_packages(r: &Recipe) -> (res: Vec<&'static str>)
    ensures
        names(res@) == wanted_pypi(*r),
{
    let mut pypi = core_pypi_vec();
    extend(&mut pypi, celery_vec(r));
    extend(&mut pypi, sentry_vec(r));
    extend(&mut pypi, observability_vec(r));
    extend(&mut pypi, api_vec(r));
    extend(&mut pypi, postgres_vec(r));
    extend(&mut pypi, tenants_vec(r));
    pypi
}

fn npm_packages(r: &Recipe) -> (res: Vec<&'static str>)
    ensures
        names(res@) == wanted_npm(*r),
{
    let mut npm: Vec<&'static str> = Vec::new();
    assert(names(npm@) =~= seq![]);
    match r.frontend {
        Frontend::React => {
            extend(&mut npm, vec!["react", "react-dom", "vite", "typescript", "@vitejs/plugin-react"]);
            let ghost q = names(npm@);
            if r.radix_flavor == Some(RadixFlavor::Themes) {
                extend(&mut npm, vec!["@radix-ui/themes", "@radix-ui/react-icons", "@radix-ui/colors"]);
            } else if r.radix_flavor == Some(RadixFlavor::Primitives) {
                extend(&mut npm, vec!["@radix-ui/react-dialog", "tailwindcss", "@tailwindcss/vite"]);
            }
            assert(names(npm@) =~= frontend_npm(*r));
        },
        Frontend::Nuxt => {
            extend(&mut npm, vec!["nuxt", "vue", "typescript", "@tailwindcss/vite"]);
        },
        Frontend::Vue => {
            extend(&mut npm, vec!["vue", "vue-router", "pinia", "@vitejs/plugin-vue", "vite", "typescript"]);
        },
        Frontend::Next => {
            extend(&mut npm, vec!["next", "react", "react-dom", "eslint-config-next", "typescript"]);
        },
        Frontend::HtmxAlpine => {
            extend(&mut npm, vec!["htmx.org", "alpinejs"]);
        },
        _ => {},
    }
    assert(names(npm@) =~= frontend_npm(*r));
    let ghost q1 = names(npm@);
    if r.css_framework == CssFramework::Tailwind {
        extend(&mut npm, vec!["tailwindcss", "@tailwindcss/cli"]);
    }
    assert(names(npm@) =~= q1 + (if r.css_framework == CssFramework::Tailwind { seq!["tailwindcss"@, "@tailwindcss/cli"@] } else { seq![] }));
    let ghost q2 = names(npm@);
    if r.css_framework == CssFramework::Bootstrap {
        extend(&mut npm, vec!["bootstrap"]);
    }
    assert(names(npm@) =~= q2 + (if r.css_framework == CssFramework::Bootstrap { seq!["bootstrap"@] } else { seq![] }));
    npm
}

/// How to resolve dependency versions.
#[derive(Debug, Clone, Copy, PartialEq, Eq, Structural)]
pub enum ResolveMode {
    /// Ask PyPI / npm for the latest stable version; fall back to the bundled default.
    Online,
    /// Use bundled defaults only.
    Offline,
}

/// The views of a list of optional registry answers.
pub open spec fn answer_views(v: Seq<Option<String>>) -> Seq<Option<Seq<char>>> {
    v.map_values(|o: Option<String>| match o {
        Some(s) => Some(s@),
        None => None,
    })
}

/// `m` updated with the PyPI answers: the i-th answer (when there is one and it is not a
/// pre-release) becomes the version of the i-th package.
pub open spec fn fold_pypi(
    m: Map<Seq<char>, Seq<char>>,
    pkgs: Seq<Seq<char>>,
    answers: Seq<Option<Seq<char>>>,
) -> Map<Seq<char>, Seq<char>>
    decreases pkgs.len(),
{
    if pkgs.len() == 0 {
        m
    } else {
        let prev = fold_pypi(m, pkgs.drop_last(), answers);
        let i = pkgs.len() - 1;
        if i < answers.len() && (answers[i] matches Some(v) && !is_prerelease_spec(v)) {
            prev.insert(py_key(pkgs[i]), answers[i]->0)
        } else {
            prev
        }
    }
}

/// `m` updated with the npm answers: the i-th answer (when there is one and it is not a
/// pre-release) becomes the version of the i-th package.
pub open spec fn fold_npm(
    m: Map<Seq<char>, Seq<char>>,
    pkgs: Seq<Seq<char>>,
    answers: Seq<Option<Seq<char>>>,
) -> Map<Seq<char>, Seq<char>>
    decreases pkgs.len(),
{
    if pkgs.len() == 0 {
        m
    } else {
        let prev = fold_npm(m, pkgs.drop_last(), answers);
        let i = pkgs.len() - 1;
        if i < answers.len() && (answers[i] matches Some(v) && !is_prerelease_spec(v)) {
            prev.insert(npm_key(pkgs[i]), answers[i]->0)
        } else {
            prev
        }
    }
}

/// The version table that resolution yields.
pub open spec fn resolved_versions(
    r: Recipe,
    mode: ResolveMode,
    pypi_answers: Seq<Option<Seq<char>>>,
    npm_answers: Seq<Option<Seq<char>>>,
) -> Map<Seq<char>, Seq<char>> {
    match mode {
        ResolveMode::Offline => default_versions(),
        ResolveMode::Online => fold_npm(
            fold_pypi(default_versions(), wanted_pypi(r), pypi_answers),
            wanted_npm(r),
            npm_answers,
        ),
    }
}

/// Resolve every version the recipe needs.
///
/// Starts from the bundled [`defaults`]. Offline, that is the answer. Online,
/// `pypi_latest[i]` / `npm_latest[i]` are the registries' latest versions of the i-th
/// package of [`relevant_packages`] (`None` where the lookup failed or is missing): an
/// answer replaces the default unless it is a pre-release.
pub fn resolve(
    recipe: &Recipe,
    mode: ResolveMode,
    pypi_latest: &Vec<Option<String>>,
    npm_latest: &Vec<Option<String>>,
) -> (res: VersionMap)
    ensures
        res@ == resolved_versions(*recipe, mode, answer_views(pypi_latest@), answer_views(npm_latest@)),
{
    let mut out = defaults();
    let needed = relevant_packages(recipe);
    if mode == ResolveMode::Offline {
        return out;
    }
    let ghost pa = answer_views(pypi_latest@);
    let ghost na = answer_views(npm_latest@);
    let ghost pk = names(needed.pypi@);
    let ghost nk = names(needed.npm@);
    let mut i: usize = 0;
    assert(pk.take(0) =~= seq![]);
    while i < needed.pypi.len()
        invariant
            i <= needed.pypi.len(),
            pk == names(needed.pypi@),
            pa == answer_views(pypi_latest@),
            out@ == fold_pypi(default_versions(), pk.take(i as int), pa),
        decreases needed.pypi.len() - i,
    {
        assert(pk.take(i + 1).drop_last() =~= pk.take(i as int));
        let pkg = needed.pypi[i];
        if i < pypi_latest.len() {
            match &pypi_latest[i] {
                Some(v) => {
                    if !is_prerelease(v.as_str()) {
                        out.insert(concat("py.", pkg), v.clone());
                    }
                },
                None => {},
            }
        }
        i = i + 1;
    }
    assert(pk.take(pk.len() as int) =~= pk);
    let ghost after_pypi = out@;
    let mut j: usize = 0;
    assert(nk.take(0) =~= seq![]);
    while j < needed.npm.len()
        invariant
            j <= needed.npm.len(),
            nk == names(needed.npm@),
            na == answer_views(npm_latest@),
            out@ == fold_npm(after_pypi, nk.take(j as int), na),
        decreases needed.npm.len() - j,
    {
        assert(nk.take(j + 1).drop_last() =~= nk.take(j as int));
        let pkg = needed.npm[j];
        if j < npm_latest.len() {
            match &npm_latest[j] {
                Some(v) => {
                    if !is_prerelease(v.as_str()) {
                        out.insert(concat("npm.", pkg), v.clone());
                    }
                },
                None => {},
            }
        }
        j = j + 1;
    }
    assert(nk.take(nk.len() as int) =~= nk);
    out
}

/// Every name in `s` has a bundled PyPI default.
pub open spec fn all_pinned_pypi(s: Seq<Seq<char>>) -> bool {
    forall|i: int| 0 <= i < s.len() ==> default_versions().contains_key(py_key(#[trigger] s[i]))
}

/// Every name in `s` has a bundled npm default.
pub open spec fn all_pinned_npm(s: Seq<Seq<char>>) -> bool {
    forall|i: int| 0 <= i < s.len() ==> default_versions().contains_key(npm_key(#[trigger] s[i]))
}

proof fn lemma_pinned_pypi_concat(a: Seq<Seq<char>>, b: Seq<Seq<char>>)
    requires
        all_pinned_pypi(a),
        all_pinned_pypi(b),
    ensures
        all_pinned_pypi(a + b),
{
    assert forall|i: int| 0 <= i < (a + b).len() implies default_versions().contains_key(
        py_key(#[trigger] (a + b)[i]),
    ) by {
        if i < a.len() {
            assert((a + b)[i] == a[i]);
        } else {
            assert((a + b)[i] == b[i - a.len()]);
        }
    }
}

proof fn lemma_pinned_npm_concat(a: Seq<Seq<char>>, b: Seq<Seq<char>>)
    requires
        all_pinned_npm(a),
        all_pinned_npm(b),
    ensures
        all_pinned_npm(a + b),
{
    assert forall|i: int| 0 <= i < (a + b).len() implies default_versions().contains_key(
        npm_key(#[trigger] (a + b)[i]),
    ) by {
        if i < a.len() {
            assert((a + b)[i] == a[i]);
        } else {
            assert((a + b)[i] == b[i - a.len()]);
        }
    }
}

proof fn lemma_pypi_groups_pinned(r: Recipe)
    ensures
        all_pinned_pypi(core_pypi()),
        all_pinned_pypi(celery_pypi(r)),
        all_pinned_pypi(sentry_pypi(r)),
        all_pinned_pypi(observability_pypi(r)),
        all_pinned_pypi(api_pypi(r.api_layer)),
        all_pinned_pypi(postgres_pypi(r)),
        all_pinned_pypi(tenants_pypi(r)),
{
    let d = default_versions();
    assert(all_pinned_pypi(core_pypi()));
    assert(all_pinned_pypi(celery_pypi(r)));
    assert(all_pinned_pypi(sentry_pypi(r)));
    assert(all_pinned_pypi(observability_pypi(r)));
    assert(all_pinned_pypi(api_pypi(r.api_layer)));
    assert(all_pinned_pypi(postgres_pypi(r)));
    assert(all_pinned_pypi(tenants_pypi(r)));
}

proof fn lemma_npm_groups_pinned(r: Recipe)
    ensures
        all_pinned_npm(frontend_npm(r)),
        all_pinned_npm(if r.css_framework == CssFramework::Tailwind {
            seq!["tailwindcss"@, "@tailwindcss/cli"@]
        } else {
            seq![]
        }),
        all_pinned_npm(if r.css_framework == CssFramework::Bootstrap { seq!["bootstrap"@] } else { seq![] }),
{
    let themes = seq!["@radix-ui/themes"@, "@radix-ui/react-icons"@, "@radix-ui/colors"@];
    let prims = seq!["@radix-ui/react-dialog"@, "tailwindcss"@, "@tailwindcss/vite"@];
    let react = seq!["react"@, "react-dom"@, "vite"@, "typescript"@, "@vitejs/plugin-react"@];
    assert(all_pinned_npm(themes));
    assert(all_pinned_npm(prims));
    assert(all_pinned_npm(react));
    assert(all_pinned_npm(seq![]));
    lemma_pinned_npm_concat(react, themes);
    lemma_pinned_npm_concat(react, prims);
    lemma_pinned_npm_concat(react, seq![]);
    assert(react + seq![] =~= react);
    assert(all_pinned_npm(frontend_npm(r)));
}

/// Every package that resolution may look up for any recipe has a bundled default, so an
/// offline render never leaves a hole where a template expects a version.
pub proof fn law_defaults_cover_relevant_packages(r: Recipe)
    ensures
        forall|i: int|
            0 <= i < wanted_pypi(r).len() ==> default_versions().contains_key(
                py_key(#[trigger] wanted_pypi(r)[i]),
            ),
        forall|i: int|
            0 <= i < wanted_npm(r).len() ==> default_versions().contains_key(
                npm_key(#[trigger] wanted_npm(r)[i]),
            ),
{
    lemma_pypi_groups_pinned(r);
    lemma_pinned_pypi_concat(core_pypi(), celery_pypi(r));
    lemma_pinned_pypi_concat(core_pypi() + celery_pypi(r), sentry_pypi(r));
    lemma_pinned_pypi_concat(core_pypi() + celery_pypi(r) + sentry_pypi(r), observability_pypi(r));
    lemma_pinned_pypi_concat(
        core_pypi() + celery_pypi(r) + sentry_pypi(r) + observability_pypi(r),
        api_pypi(r.api_layer),
    );
    lemma_pinned_pypi_concat(
        core_pypi() + celery_pypi(r) + sentry_pypi(r) + observability_pypi(r) + api_pypi(
            r.api_layer,
        ),
        postgres_pypi(r),
    );
    lemma_pinned_pypi_concat(
        core_pypi() + celery_pypi(r) + sentry_pypi(r) + observability_pypi(r) + api_pypi(
            r.api_layer,
        ) + postgres_pypi(r),
        tenants_pypi(r),
    );
    lemma_npm_groups_pinned(r);
    let tw = if r.css_framework == CssFramework::Tailwind {
        seq!["tailwindcss"@, "@tailwindcss/cli"@]
    } else {
        seq![]
    };
    let bs = if r.css_framework == CssFramework::Bootstrap { seq!["bootstrap"@] } else { seq![] };
    lemma_pinned_npm_concat(frontend_npm(r), tw);
    lemma_pinned_npm_concat(frontend_npm(r) + tw, bs);
}

proof fn lemma_fold_pypi_keeps_keys(
    m: Map<Seq<char>, Seq<char>>,
    pkgs: Seq<Seq<char>>,
    answers: Seq<Option<Seq<char>>>,
)
    requires
        forall|i: int| 0 <= i < pkgs.len() ==> m.contains_key(py_key(#[trigger] pkgs[i])),
    ensures
        fold_pypi(m, pkgs, answers).dom() == m.dom(),
    decreases pkgs.len(),
{
    if pkgs.len() > 0 {
        let t = pkgs.drop_last();
        assert forall|i: int| 0 <= i < t.len() implies m.contains_key(py_key(#[trigger] t[i])) by {
            assert(t[i] == pkgs[i]);
        }
        lemma_fold_pypi_keeps_keys(m, t, answers);
        let k = py_key(pkgs[pkgs.len() - 1]);
        assert(m.contains_key(k));
        assert(fold_pypi(m, t, answers).insert(k, seq![]).dom() =~= m.dom());
    }
}

proof fn lemma_fold_npm_keeps_keys(
    m: Map<Seq<char>, Seq<char>>,
    pkgs: Seq<Seq<char>>,
    answers: Seq<Option<Seq<char>>>,
)
    requires
        forall|i: int| 0 <= i < pkgs.len() ==> m.contains_key(npm_key(#[trigger] pkgs[i])),
    ensures
        fold_npm(m, pkgs, answers).dom() == m.dom(),
    decreases pkgs.len(),
{
    if pkgs.len() > 0 {
        let t = pkgs.drop_last();
        assert forall|i: int| 0 <= i < t.len() implies m.contains_key(npm_key(#[trigger] t[i])) by {
            assert(t[i] == pkgs[i]);
        }
        lemma_fold_npm_keeps_keys(m, t, answers);
        let k = npm_key(pkgs[pkgs.len() - 1]);
        assert(m.contains_key(k));
        assert(fold_npm(m, t, answers).insert(k, seq![]).dom() =~= m.dom());
    }
}

/// Resolution only ever replaces bundled versions: whatever the registries answer, and in
/// either mode, the resolved table pins exactly the packages of the bundled defaults.
pub proof fn law_resolution_keeps_pinned_packages(
    r: Recipe,
    mode: ResolveMode,
    pypi_answers: Seq<Option<Seq<char>>>,
    npm_answers: Seq<Option<Seq<char>>>,
)
    ensures
        resolved_versions(r, mode, pypi_answers, npm_answers).dom() == default_versions().dom(),
{
    law_defaults_cover_relevant_packages(r);
    lemma_fold_pypi_keeps_keys(default_versions(), wanted_pypi(r), pypi_answers);
    let after = fold_pypi(default_versions(), wanted_pypi(r), pypi_answers);
    assert forall|i: int| 0 <= i < wanted_npm(r).len() implies after.contains_key(
        npm_key(#[trigger] wanted_npm(r)[i]),
    ) by {
        assert(default_versions().contains_key(npm_key(wanted_npm(r)[i])));
    }
    lemma_fold_npm_keeps_keys(after, wanted_npm(r), npm_answers);
}

/// A PyPI key is never an npm key: they start with `py.` and `npm.`.
proof fn lemma_py_key_not_npm_key(a: Seq<char>, b: Seq<char>)
    ensures
        py_key(a) != npm_key(b),
{
    reveal_strlit("py.");
    reveal_strlit("npm.");
    assert(py_key(a)[0] == 'p');
    assert(npm_key(b)[0] == 'n');
}

proof fn lemma_fold_npm_keeps_py_key(
    m: Map<Seq<char>, Seq<char>>,
    pkgs: Seq<Seq<char>>,
    answers: Seq<Option<Seq<char>>>,
    name: Seq<char>,
)
    ensures
        fold_npm(m, pkgs, answers).contains_key(py_key(name)) == m.contains_key(py_key(name)),
        fold_npm(m, pkgs, answers)[py_key(name)] == m[py_key(name)],
    decreases pkgs.len(),
{
    if pkgs.len() > 0 {
        lemma_fold_npm_keeps_py_key(m, pkgs.drop_last(), answers, name);
        lemma_py_key_not_npm_key(name, pkgs[pkgs.len() - 1]);
    }
}

proof fn lemma_fold_pypi_stable(
    m: Map<Seq<char>, Seq<char>>,
    pkgs: Seq<Seq<char>>,
    answers: Seq<Option<Seq<char>>>,
    key: Seq<char>,
)
    requires
        fold_pypi(m, pkgs, answers).contains_key(key),
    ensures
        ({
            let v = fold_pypi(m, pkgs, answers)[key];
            (m.contains_key(key) && v == m[key]) || (!is_prerelease_spec(v) && exists|i: int|
                0 <= i < answers.len() && answers[i] == Some(v))
        }),
    decreases pkgs.len(),
{
    if pkgs.len() > 0 {
        let prev = fold_pypi(m, pkgs.drop_last(), answers);
        let i = pkgs.len() - 1;
        if i < answers.len() && (answers[i] matches Some(v) && !is_prerelease_spec(v)) && py_key(pkgs[i]) == key {
            assert(fold_pypi(m, pkgs, answers)[key] == answers[i]->0);
            assert(answers[i] == Some(fold_pypi(m, pkgs, answers)[key]));
        } else {
            assert(prev.contains_key(key));
            lemma_fold_pypi_stable(m, pkgs.drop_last(), answers, key);
            let v = prev[key];
            if !(m.contains_key(key) && v == m[key]) {
                let j = choose|j: int| 0 <= j < answers.len() && answers[j] == Some(v);
                assert(answers[j] == Some(fold_pypi(m, pkgs, answers)[key]));
            }
        }
    }
}

/// A PyPI pre-release is never pinned: every `py.*` version that resolution yields, in
/// either mode and whatever the registries answer, is the bundled default or a registry
/// answer that is not a pre-release.
pub proof fn law_pypi_pins_are_stable_or_bundled(
    r: Recipe,
    mode: ResolveMode,
    pypi_answers: Seq<Option<Seq<char>>>,
    npm_answers: Seq<Option<Seq<char>>>,
    name: Seq<char>,
)
    requires
        resolved_versions(r, mode, pypi_answers, npm_answers).contains_key(py_key(name)),
    ensures
        ({
            let v = resolved_versions(r, mode, pypi_answers, npm_answers)[py_key(name)];
            v == default_versions()[py_key(name)] || (!is_prerelease_spec(v) && exists|i: int|
                0 <= i < pypi_answers.len() && pypi_answers[i] == Some(v))
        }),
{
    if mode == ResolveMode::Online {
        let after = fold_pypi(default_versions(), wanted_pypi(r), pypi_answers);
        lemma_fold_npm_keeps_py_key(after, wanted_npm(r), npm_answers, name);
        lemma_fold_pypi_stable(default_versions(), wanted_pypi(r), pypi_answers, py_key(name));
    }
}

proof fn lemma_fold_pypi_keeps_npm_key(
    m: Map<Seq<char>, Seq<char>>,
    pkgs: Seq<Seq<char>>,
    answers: Seq<Option<Seq<char>>>,
    name: Seq<char>,
)
    ensures
        fold_pypi(m, pkgs, answers).contains_key(npm_key(name)) == m.contains_key(npm_key(name)),
        fold_pypi(m, pkgs, answers)[npm_key(name)] == m[npm_key(name)],
    decreases pkgs.len(),
{
    if pkgs.len() > 0 {
        lemma_fold_pypi_keeps_npm_key(m, pkgs.drop_last(), answers, name);
        lemma_py_key_not_npm_key(pkgs[pkgs.len() - 1], name);
    }
}

proof fn lemma_fold_npm_stable(
    m: Map<Seq<char>, Seq<char>>,
    pkgs: Seq<Seq<char>>,
    answers: Seq<Option<Seq<char>>>,
    key: Seq<char>,
)
    requires
        fold_npm(m, pkgs, answers).contains_key(key),
    ensures
        ({
            let v = fold_npm(m, pkgs, answers)[key];
            (m.contains_key(key) && v == m[key]) || (!is_prerelease_spec(v) && exists|i: int|
                0 <= i < answers.len() && answers[i] == Some(v))
        }),
    decreases pkgs.len(),
{
    if pkgs.len() > 0 {
        let prev = fold_npm(m, pkgs.drop_last(), answers);
        let i = pkgs.len() - 1;
        if i < answers.len() && (answers[i] matches Some(v) && !is_prerelease_spec(v)) && npm_key(pkgs[i]) == key {
            assert(fold_npm(m, pkgs, answers)[key] == answers[i]->0);
            assert(answers[i] == Some(fold_npm(m, pkgs, answers)[key]));
        } else {
            assert(prev.contains_key(key));
            lemma_fold_npm_stable(m, pkgs.drop_last(), answers, key);
            let v = prev[key];
            if !(m.contains_key(key) && v == m[key]) {
                let j = choose|j: int| 0 <= j < answers.len() && answers[j] == Some(v);
                assert(answers[j] == Some(fold_npm(m, pkgs, answers)[key]));
            }
        }
    }
}

/// An npm pre-release is never pinned either: every `npm.*` version that resolution
/// yields, in either mode and whatever the registry answers, is the bundled default or a
/// registry answer that is not a pre-release.
pub proof fn law_npm_pins_are_stable_or_bundled(
    r: Recipe,
    mode: ResolveMode,
    pypi_answers: Seq<Option<Seq<char>>>,
    npm_answers: Seq<Option<Seq<char>>>,
    name: Seq<char>,
)
    requires
        resolved_versions(r, mode, pypi_answers, npm_answers).contains_key(npm_key(name)),
    ensures
        ({
            let v = resolved_versions(r, mode, pypi_answers, npm_answers)[npm_key(name)];
            v == default_versions()[npm_key(name)] || (!is_prerelease_spec(v) && exists|i: int|
                0 <= i < npm_answers.len() && npm_answers[i] == Some(v))
        }),
{
    if mode == ResolveMode::Online {
        let after = fold_pypi(default_versions(), wanted_pypi(r), pypi_answers);
        lemma_fold_pypi_keeps_npm_key(default_versions(), wanted_pypi(r), pypi_answers, name);
        lemma_fold_npm_stable(after, wanted_npm(r), npm_answers, npm_key(name));
    }
}

/// Offline resolution is the bundled defaults, whatever answers are at hand.
pub proof fn law_offline_resolution_is_bundled(
    r: Recipe,
    pypi_answers: Seq<Option<Seq<char>>>,
    npm_answers: Seq<Option<Seq<char>>>,
)
    ensures
        resolved_versions(r, ResolveMode::Offline, pypi_answers, npm_answers) == default_versions(),
{
}

/// The PyPI JSON API address of a package, whose `info.version` is its latest release.
pub fn pypi_url(pkg: &str) -> (res: String)
    ensures
        res@ == "https://pypi.org/pypi/"@ + pkg@ + "/json"@,
{
    let head = concat("https://pypi.org/pypi/", pkg);
    concat(head.as_str(), "/json")
}

/// The npm registry address of a package's latest release, whose `version` is it.
pub fn npm_url(pkg: &str) -> (res: String)
    ensures
        res@ == "https://registry.npmjs.org/"@ + pkg@ + "/latest"@,
{
    let head = concat("https://registry.npmjs.org/", pkg);
    concat(head.as_str(), "/latest")
}

/// `(a0, a1)` comes before `(b0, b1)` in the usual order of version pairs: a lower major,
/// or the same major and a lower minor.
pub open spec fn pair_below(a: (u64, u64), b: (u64, u64)) -> bool {
    a.0 < b.0 || (a.0 == b.0 && a.1 < b.1)
}

/// With Celery in use, a Celery version whose major.minor comes before 5.4 (any 4.x,
/// 3.x, ..., as well as 5.0 to 5.3) adds exactly one warning, after the others: the
/// warnings are those of any recipe without Celery, then the Celery one.
pub proof fn law_celery_before_5_4_is_warned(
    r: Recipe,
    s: Recipe,
    m: Map<Seq<char>, Seq<char>>,
    mm: (u64, u64),
)
    requires
        r.use_celery,
        !s.use_celery,
        m.contains_key("py.celery"@),
        safe_major_minor(m["py.celery"@]) == Some(mm),
        pair_below(mm, (5, 4)),
    ensures
        compat_warnings(r, m) == compat_warnings(s, m).push(celery_below_warning(m["py.celery"@])),
{
    assert(compat_warnings(s, m).push(celery_below_warning(m["py.celery"@])) =~= compat_warnings(
        r,
        m,
    ));
}

/// A Celery version at 5.4 or later, an unparsable one, none at all, or a recipe without
/// Celery adds no warning: the warnings are those of any recipe without Celery.
pub proof fn law_celery_from_5_4_is_not_warned(r: Recipe, s: Recipe, m: Map<Seq<char>, Seq<char>>)
    requires
        !s.use_celery,
        !r.use_celery || !m.contains_key("py.celery"@) || (safe_major_minor(m["py.celery"@]) matches Some(mm)
            && !pair_below(mm, (5, 4))) || safe_major_minor(m["py.celery"@]) is None,
    ensures
        compat_warnings(r, m) == compat_warnings(s, m),
{
    assert(compat_warnings(s, m) =~= compat_warnings(r, m));
}

/// With Celery in use, every package the Celery templates pin is looked up on PyPI:
/// `celery`, `django-celery-beat` and `flower`.
pub proof fn law_celery_packages_are_looked_up(r: Recipe)
    requires
        r.use_celery,
    ensures
        wanted_pypi(r).contains("celery"@),
        wanted_pypi(r).contains("django-celery-beat"@),
        wanted_pypi(r).contains("flower"@),
{
    let c = core_pypi();
    let w = wanted_pypi(r);
    assert(w[c.len() as int] == "celery"@);
    assert(w[c.len() as int + 1] == "django-celery-beat"@);
    assert(w[c.len() as int + 2] == "flower"@);
}

/// A PyPI package a recipe may want besides the Celery ones.
spec fn is_other_pypi_name(n: Seq<char>) -> bool {
    n == "argon2-cffi"@ || n == "django"@ || n == "django-allauth"@
    || n == "django-cors-headers"@ || n == "django-csp"@ || n == "django-environ"@
    || n == "django-ninja"@ || n == "django-ratelimit"@ || n == "django-structlog"@
    || n == "djangorestframework"@ || n == "drf-spectacular"@ || n == "factory-boy"@
    || n == "gunicorn"@ || n == "opentelemetry-sdk"@ || n == "psycopg"@ || n == "pytest"@
    || n == "pytest-django"@ || n == "ruff"@ || n == "sentry-sdk"@
    || n == "strawberry-graphql"@ || n == "strawberry-graphql-django"@
    || n == "structlog"@ || n == "uvicorn"@ || n == "whitenoise"@ || n == "graphene-django"@
    || n == "django-tenants"@
}

/// Every name in `s` is one of [`is_other_pypi_name`].
spec fn all_other_pypi(s: Seq<Seq<char>>) -> bool {
    forall|i: int| 0 <= i < s.len() ==> is_other_pypi_name(#[trigger] s[i])
}

/// `a + b` holds only what `a` or `b` holds.
proof fn lemma_concat_other_pypi(a: Seq<Seq<char>>, b: Seq<Seq<char>>)
    requires
        all_other_pypi(a),
        all_other_pypi(b),
    ensures
        all_other_pypi(a + b),
{
    assert forall|i: int| 0 <= i < (a + b).len() implies is_other_pypi_name(#[trigger] (a + b)[i]) by {
        if i < a.len() {
            assert((a + b)[i] == a[i]);
        } else {
            assert((a + b)[i] == b[i - a.len()]);
        }
    }
}

/// Without Celery, every package a recipe wants is one of the others.
proof fn lemma_wanted_without_celery(r: Recipe)
    requires
        !r.use_celery,
    ensures
        all_other_pypi(wanted_pypi(r)),
{
    assert(all_other_pypi(core_pypi()));
    assert(all_other_pypi(celery_pypi(r)));
    assert(all_other_pypi(sentry_pypi(r)));
    assert(all_other_pypi(observability_pypi(r)));
    match r.api_layer {
        ApiLayer::Ninja => assert(all_other_pypi(api_pypi(r.api_layer))),
        ApiLayer::Drf => assert(all_other_pypi(api_pypi(r.api_layer))),
        ApiLayer::GraphqlStrawberry => assert(all_other_pypi(api_pypi(r.api_layer))),
        ApiLayer::GraphqlGraphene => assert(all_other_pypi(api_pypi(r.api_layer))),
        ApiLayer::Nothing => assert(all_other_pypi(api_pypi(r.api_layer))),
    }
    assert(all_other_pypi(postgres_pypi(r)));
    assert(all_other_pypi(tenants_pypi(r)));
    let c = core_pypi() + celery_pypi(r);
    lemma_concat_other_pypi(core_pypi(), celery_pypi(r));
    lemma_concat_other_pypi(c, sentry_pypi(r));
    lemma_concat_other_pypi(c + sentry_pypi(r), observability_pypi(r));
    lemma_concat_other_pypi(c + sentry_pypi(r) + observability_pypi(r), api_pypi(r.api_layer));
    lemma_concat_other_pypi(
        c + sentry_pypi(r) + observability_pypi(r) + api_pypi(r.api_layer),
        postgres_pypi(r),
    );
    lemma_concat_other_pypi(
        c + sentry_pypi(r) + observability_pypi(r) + api_pypi(r.api_layer) + postgres_pypi(r),
        tenants_pypi(r),
    );
}

/// None of the Celery packages is among the others.
proof fn lemma_celery_names_are_not_other()
    ensures
        !is_other_pypi_name("celery"@),
        !is_other_pypi_name("django-celery-beat"@),
        !is_other_pypi_name("flower"@),
{
    reveal_strlit("argon2-cffi");
    reveal_strlit("django");
    reveal_strlit("django-allauth");
    reveal_strlit("django-cors-headers");
    reveal_strlit("django-csp");
    reveal_strlit("django-environ");
    reveal_strlit("django-ninja");
    reveal_strlit("django-ratelimit");
    reveal_strlit("django-structlog");
    reveal_strlit("djangorestframework");
    reveal_strlit("drf-spectacular");
    reveal_strlit("factory-boy");
    reveal_strlit("gunicorn");
    reveal_strlit("opentelemetry-sdk");
    reveal_strlit("psycopg");
    reveal_strlit("pytest");
    reveal_strlit("pytest-django");
    reveal_strlit("ruff");
    reveal_strlit("sentry-sdk");
    reveal_strlit("strawberry-graphql");
    reveal_strlit("strawberry-graphql-django");
    reveal_strlit("structlog");
    reveal_strlit("uvicorn");
    reveal_strlit("whitenoise");
    reveal_strlit("celery");
    reveal_strlit("django-celery-beat");
    reveal_strlit("flower");
    assert("argon2-cffi"@.len() != "celery"@.len());
    assert("argon2-cffi"@.len() != "django-celery-beat"@.len());
    assert("argon2-cffi"@.len() != "flower"@.len());
    assert("django"@[0] != "celery"@[0]);
    assert("django"@.len() != "django-celery-beat"@.len());
    assert("django"@[0] != "flower"@[0]);
    assert("django-allauth"@.len() != "celery"@.len());
    assert("django-allauth"@.len() != "django-celery-beat"@.len());
    assert("django-allauth"@.len() != "flower"@.len());
    assert("django-cors-headers"@.len() != "celery"@.len());
    assert("django-cors-headers"@.len() != "django-celery-beat"@.len());
    assert("django-cors-headers"@.len() != "flower"@.len());
    assert("django-csp"@.len() != "celery"@.len());
    assert("django-csp"@.len() != "django-celery-beat"@.len());
    assert("django-csp"@.len() != "flower"@.len());
    assert("django-environ"@.len() != "celery"@.len());
    assert("django-environ"@.len() != "django-celery-beat"@.len());
    assert("django-environ"@.len() != "flower"@.len());
    assert("django-ninja"@.len() != "celery"@.len());
    assert("django-ninja"@.len() != "django-celery-beat"@.len());
    assert("django-ninja"@.len() != "flower"@.len());
    assert("django-ratelimit"@.len() != "celery"@.len());
    assert("django-ratelimit"@.len() != "django-celery-beat"@.len());
    assert("django-ratelimit"@.len() != "flower"@.len());
    assert("django-structlog"@.len() != "celery"@.len());
    assert("django-structlog"@.len() != "django-celery-beat"@.len());
    assert("django-structlog"@.len() != "flower"@.len());
    assert("djangorestframework"@.len() != "celery"@.len());
    assert("djangorestframework"@.len() != "django-celery-beat"@.len());
    assert("djangorestframework"@.len() != "flower"@.len());
    assert("drf-spectacular"@.len() != "celery"@.len());
    assert("drf-spectacular"@.len() != "django-celery-beat"@.len());
    assert("drf-spectacular"@.len() != "flower"@.len());
    assert("factory-boy"@.len() != "celery"@.len());
    assert("factory-boy"@.len() != "django-celery-beat"@.len());
    assert("factory-boy"@.len() != "flower"@.len());
    assert("gunicorn"@.len() != "celery"@.len());
    assert("gunicorn"@.len() != "django-celery-beat"@.len());
    assert("gunicorn"@.len() != "flower"@.len());
    assert("opentelemetry-sdk"@.len() != "celery"@.len());
    assert("opentelemetry-sdk"@.len() != "django-celery-beat"@.len());
    assert("opentelemetry-sdk"@.len() != "flower"@.len());
    assert("psycopg"@.len() != "celery"@.len());
    assert("psycopg"@.len() != "django-celery-beat"@.len());
    assert("psycopg"@.len() != "flower"@.len());
    assert("pytest"@[0] != "celery"@[0]);
    assert("pytest"@.len() != "django-celery-beat"@.len());
    assert("pytest"@[0] != "flower"@[0]);
    assert("pytest-django"@.len() != "celery"@.len());
    assert("pytest-django"@.len() != "django-celery-beat"@.len());
    assert("pytest-django"@.len() != "flower"@.len());
    assert("ruff"@.len() != "celery"@.len());
    assert("ruff"@.len() != "django-celery-beat"@.len());
    assert("ruff"@.len() != "flower"@.len());
    assert("sentry-sdk"@.len() != "celery"@.len());
    assert("sentry-sdk"@.len() != "django-celery-beat"@.len());
    assert("sentry-sdk"@.len() != "flower"@.len());
    assert("strawberry-graphql"@.len() != "celery"@.len());
    assert("strawberry-graphql"@[0] != "django-celery-beat"@[0]);
    assert("strawberry-graphql"@.len() != "flower"@.len());
    assert("strawberry-graphql-django"@.len() != "celery"@.len());
    assert("strawberry-graphql-django"@.len() != "django-celery-beat"@.len());
    assert("strawberry-graphql-django"@.len() != "flower"@.len());
    assert("structlog"@.len() != "celery"@.len());
    assert("structlog"@.len() != "django-celery-beat"@.len());
    assert("structlog"@.len() != "flower"@.len());
    assert("uvicorn"@.len() != "celery"@.len());
    assert("uvicorn"@.len() != "django-celery-beat"@.len());
    assert("uvicorn"@.len() != "flower"@.len());
    assert("whitenoise"@.len() != "celery"@.len());
    assert("whitenoise"@.len() != "django-celery-beat"@.len());
    assert("whitenoise"@.len() != "flower"@.len());
    reveal_strlit("graphene-django");
    reveal_strlit("django-tenants");
    assert("graphene-django"@.len() != "celery"@.len());
    assert("graphene-django"@.len() != "django-celery-beat"@.len());
    assert("graphene-django"@.len() != "flower"@.len());
    assert("django-tenants"@.len() != "celery"@.len());
    assert("django-tenants"@.len() != "django-celery-beat"@.len());
    assert("django-tenants"@.len() != "flower"@.len());
}

/// Without Celery no Celery package is looked up: neither `celery`, `django-celery-beat`
/// nor `flower` is wanted.
pub proof fn law_no_celery_packages_without_celery(r: Recipe)
    requires
        !r.use_celery,
    ensures
        !wanted_pypi(r).contains("celery"@),
        !wanted_pypi(r).contains("django-celery-beat"@),
        !wanted_pypi(r).contains("flower"@),
{
    lemma_wanted_without_celery(r);
    lemma_celery_names_are_not_other();
}

} // verus!
