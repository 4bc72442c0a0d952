//! Naming filters available inside templates (slug and case conversions, environment
//! variable names) and the `secret_key` template function.
//!
//! Word segmentation and case mapping come from the `heck` crate; its results are
//! named, not restated.

use vstd::prelude::*;

use crate::context::{entropy_failure_message, is_url_safe_secret, secret_key};
use crate::engine::{
    add_filter, add_secret_key_function, env_escapes_by_name, env_filter, env_function,
    env_keeps_trailing_newline, env_strict_undefined, TemplateFunction, TextFilter,
};
use crate::text::{chars_of, owned, string_from_chars};

verus! {

/// `heck::ToKebabCase::to_kebab_case`.
pub uninterp spec fn heck_kebab(s: Seq<char>) -> Seq<char>;

/// `heck::ToSnakeCase::to_snake_case`.
pub uninterp spec fn heck_snake(s: Seq<char>) -> Seq<char>;

/// `heck::ToUpperCamelCase::to_upper_camel_case`.
pub uninterp spec fn heck_upper_camel(s: Seq<char>) -> Seq<char>;

/// `heck::ToShoutySnakeCase::to_shouty_snake_case`.
pub uninterp spec fn heck_shouty_snake(s: Seq<char>) -> Seq<char>;

/// `str::to_uppercase` (Unicode upper-case mapping).
pub uninterp spec fn unicode_uppercase(s: Seq<char>) -> Seq<char>;

/// Calls `heck`'s kebab-case conversion. Claimed: the result depends on `s` alone.
#[verifier::external_body]
pub(crate) fn to_kebab(s: &str) -> (res: String)
    ensures
        res@ == heck_kebab(s@),
{
    heck::ToKebabCase::to_kebab_case(s)
}

/// Calls `heck`'s snake_case conversion. Claimed: the result depends on `s` alone.
#[verifier::external_body]
pub(crate) fn to_snake(s: &str) -> (res: String)
    ensures
        res@ == heck_snake(s@),
{
    heck::ToSnakeCase::to_snake_case(s)
}

/// Calls `heck`'s UpperCamelCase conversion. Claimed: the result depends on `s` alone.
#[verifier::external_body]
pub(crate) fn to_upper_camel(s: &str) -> (res: String)
    ensures
        res@ == heck_upper_camel(s@),
{
    heck::ToUpperCamelCase::to_upper_camel_case(s)
}

/// Calls `heck`'s SHOUTY_SNAKE_CASE conversion. Claimed: the result depends on `s` alone.
#[verifier::external_body]
pub(crate) fn to_shouty_snake(s: &str) -> (res: String)
    ensures
        res@ == heck_shouty_snake(s@),
{
    heck::ToShoutySnakeCase::to_shouty_snake_case(s)
}

/// Calls `str::to_uppercase`. Claimed: the result depends on `s` alone.
#[verifier::external_body]
fn to_uppercase(s: &str) -> (res: String)
    ensures
        res@ == unicode_uppercase(s@),
{
    s.to_uppercase()
}

/// `slugify`: the kebab-case form, e.g. `My Awesome App` → `my-awesome-app`.
pub fn slugify(value: String) -> (res: String)
    ensures
        res@ == heck_kebab(value@),
{
    to_kebab(value.as_str())
}

/// `snake_case` (also registered as `py_module`), e.g. `AcmeCorp` → `acme_corp`.
pub fn snake_case(value: String) -> (res: String)
    ensures
        res@ == heck_snake(value@),
{
    to_snake(value.as_str())
}

/// `kebab_case`, e.g. `MyAwesomeApp` → `my-awesome-app`.
pub fn kebab_case(value: String) -> (res: String)
    ensures
        res@ == heck_kebab(value@),
{
    to_kebab(value.as_str())
}

/// `camel_case` (UpperCamelCase), e.g. `my_awesome_app` → `MyAwesomeApp`.
pub fn camel_case(value: String) -> (res: String)
    ensures
        res@ == heck_upper_camel(value@),
{
    to_upper_camel(value.as_str())
}

/// `-` and `.` become `_`; every other character is kept.
pub open spec fn env_char(c: char) -> char {
    if c == '-' || c == '.' {
        '_'
    } else {
        c
    }
}

/// The environment-variable form of a name: upper-cased, with `-` and `.` turned into `_`.
pub open spec fn env_var_spec(value: Seq<char>) -> Seq<char> {
    unicode_uppercase(value).map_values(|c: char| env_char(c))
}

/// `-` and `.` turned into `_`, every other character kept: the second step of
/// `env_var`, applied to the upper-cased name.
pub fn underscore_separators(upper: &str) -> (res: String)
    ensures
        res@ == upper@.map_values(|c: char| env_char(c)),
{
    let cs = chars_of(upper);
    let mut out: Vec<char> = Vec::new();
    let mut i: usize = 0;
    while i < cs.len()
        invariant
            i <= cs.len(),
            cs@ == upper@,
            out@ == cs@.take(i as int).map_values(|c: char| env_char(c)),
        decreases cs.len() - i,
    {
        let c = cs[i];
        let d = if c == '-' || c == '.' {
            '_'
        } else {
            c
        };
        out.push(d);
        assert(out@ =~= cs@.take(i + 1).map_values(|c: char| env_char(c)));
        i = i + 1;
    }
    assert(cs@.take(cs.len() as int) =~= cs@);
    string_from_chars(&out)
}

/// `env_var`, e.g. `my-app.name` → `MY_APP_NAME`.
pub fn env_var(value: String) -> (res: String)
    ensures
        res@ == env_var_spec(value@),
{
    let upper = to_uppercase(value.as_str());
    underscore_separators(upper.as_str())
}

/// The `secret_key([len])` template function: a fresh URL-safe secret of `len`
/// characters, 50 when no length is given; the template fails with a message when the
/// operating system's generator fails.
pub fn secret_key_fn(len: Option<usize>) -> (res: Result<String, String>)
    ensures
        res matches Ok(s) ==> is_url_safe_secret(s@, match len {
            Some(n) => n as int,
            None => 50,
        }),
        res matches Err(m) ==> m@ == entropy_failure_message(),
{
    let n = match len {
        Some(n) => n,
        None => 50,
    };
    match secret_key(n) {
        Some(k) => Ok(k),
        None => Err(owned("the operating system's random number generator failed")),
    }
}

/// The filter the templates find under `name`: `slugify`, `snake_case`, `kebab_case`,
/// `camel_case`, `py_module` (the snake-case filter under a second name) and `env_var`.
pub open spec fn template_filter(name: Seq<char>) -> Option<TextFilter> {
    if name == "env_var"@ {
        Some(TextFilter::EnvVar)
    } else if name == "py_module"@ {
        Some(TextFilter::SnakeCase)
    } else if name == "camel_case"@ {
        Some(TextFilter::CamelCase)
    } else if name == "kebab_case"@ {
        Some(TextFilter::KebabCase)
    } else if name == "snake_case"@ {
        Some(TextFilter::SnakeCase)
    } else if name == "slugify"@ {
        Some(TextFilter::Slugify)
    } else {
        None
    }
}

/// The function the templates find under `name`: `secret_key`.
pub open spec fn template_function(name: Seq<char>) -> Option<TemplateFunction> {
    if name == "secret_key"@ {
        Some(TemplateFunction::SecretKey)
    } else {
        None
    }
}

/// Registers the template filters (see [`template_filter`]) and the `secret_key([len])`
/// function (see [`template_function`]) in a template environment; every other filter
/// and function, and the environment's settings, are left as they were.
pub fn register(env: &mut minijinja::Environment<'static>)
    ensures
        forall|n: Seq<char>|
            #[trigger] env_filter(*final(env), n) == match template_filter(n) {
                Some(f) => Some(f),
                None => env_filter(*old(env), n),
            },
        forall|n: Seq<char>|
            #[trigger] env_function(*final(env), n) == match template_function(n) {
                Some(f) => Some(f),
                None => env_function(*old(env), n),
            },
        env_strict_undefined(*final(env)) == env_strict_undefined(*old(env)),
        env_keeps_trailing_newline(*final(env)) == env_keeps_trailing_newline(*old(env)),
        env_escapes_by_name(*final(env)) == env_escapes_by_name(*old(env)),
{
    add_filter(env, "slugify", TextFilter::Slugify);
    add_filter(env, "snake_case", TextFilter::SnakeCase);
    add_filter(env, "kebab_case", TextFilter::KebabCase);
    add_filter(env, "camel_case", TextFilter::CamelCase);
    add_filter(env, "py_module", TextFilter::SnakeCase);
    add_filter(env, "env_var", TextFilter::EnvVar);
    add_secret_key_function(env, "secret_key");
}

} // verus!
