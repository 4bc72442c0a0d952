//! The rendering context — everything templates address under the single `bakery`
//! namespace: the recipe's answers, booleans derived from them, engine extras (fresh
//! secrets, the current year, the bakery version) and the resolved version pins.
//!
//! The context is built here as plain data; [`crate::engine::Renderer`] turns it into the
//! template engine's context.

use vstd::prelude::*;

use crate::filters::{heck_kebab, heck_shouty_snake, heck_snake, heck_upper_camel, to_kebab, to_shouty_snake, to_snake, to_upper_camel};
use crate::options::{ApiLayer, ContainerSetup, Frontend, FrontendVariant, JsLanguage, RelationalDb};
use crate::recipe::Recipe;
use crate::render::{blank, is_blank};
use crate::text::{
    ascii_lower_seq, chars_of, is_ascii_alnum, lower_all, owned, push_char, string_from_chars,
};
use crate::version_map::{keys_sorted, pairs_to_map, VersionMap};
use crate::versions::{default_versions, resolve, ResolveMode};

verus! {

// ---------------------------------------------------------------------------
// secrets
// ---------------------------------------------------------------------------

/// A character allowed in generated secrets: ASCII letter or digit, `-` or `_` — nothing
/// with a meaning to shells or `.env` parsers.
pub open spec fn is_url_safe_char(c: char) -> bool {
    is_ascii_alnum(c) || c == '-' || c == '_'
}

/// `s` is a secret of `len` URL-safe characters.
pub open spec fn is_url_safe_secret(s: Seq<char>, len: int) -> bool {
    &&& s.len() == len
    &&& forall|i: int| 0 <= i < s.len() ==> is_url_safe_char(#[trigger] s[i])
}

#[verifier::external_type_specification]
#[verifier::external_body]
pub struct ExChaCha20Rng(rand_chacha::ChaCha20Rng);

/// `ChaCha20Rng::try_from_rng` on the operating system's generator (`rand::rngs::SysRng`):
/// a ChaCha20 generator seeded from the OS, `None` when the OS source fails. Nothing is
/// claimed of which: it is chance and the machine. (A seeded ChaCha20 generator never
/// fails afterwards.)
#[verifier::external_body]
fn chacha_from_os() -> Option<rand_chacha::ChaCha20Rng> {
    <rand_chacha::ChaCha20Rng as rand::SeedableRng>::try_from_rng(&mut rand::rngs::SysRng).ok()
}

/// `IndexedRandom::choose` on a byte slice, copied out. Claimed, as rand documents and its
/// source shows: `None` exactly when the slice is empty, otherwise one of its elements.
/// Which element is chance.
#[verifier::external_body]
fn choose_byte(items: &[u8], rng: &mut rand_chacha::ChaCha20Rng) -> (res: Option<u8>)
    ensures
        res is None <==> items@.len() == 0,
        res matches Some(b) ==> items@.contains(b),
{
    rand::seq::IndexedRandom::choose(items, rng).copied()
}

/// The 64 URL-safe bytes secrets are drawn from.
fn url_safe_alphabet() -> (res: Vec<u8>)
    ensures
        res@.len() == 64,
        forall|i: int| 0 <= i < res@.len() ==> is_url_safe_char(#[trigger] res@[i] as char),
{
    let mut out: Vec<u8> = Vec::new();
    let mut b: u8 = 97;
    while b <= 122
        invariant
            97 <= b <= 123,
            out@.len() == b - 97,
            forall|i: int| 0 <= i < out@.len() ==> is_url_safe_char(#[trigger] out@[i] as char),
        decreases 123 - b,
    {
        out.push(b);
        b = b + 1;
    }
    let mut b: u8 = 65;
    while b <= 90
        invariant
            65 <= b <= 91,
            out@.len() == 26 + b - 65,
            forall|i: int| 0 <= i < out@.len() ==> is_url_safe_char(#[trigger] out@[i] as char),
        decreases 91 - b,
    {
        out.push(b);
        b = b + 1;
    }
    let mut b: u8 = 48;
    while b <= 57
        invariant
            48 <= b <= 58,
            out@.len() == 52 + b - 48,
            forall|i: int| 0 <= i < out@.len() ==> is_url_safe_char(#[trigger] out@[i] as char),
        decreases 58 - b,
    {
        out.push(b);
        b = b + 1;
    }
    out.push(45);
    out.push(95);
    out
}

/// A fresh secret of `len` URL-safe characters (letters, digits, `-`, `_`), drawn
/// uniformly from the 64-character alphabet by a ChaCha20 generator seeded from the OS;
/// `None` when the operating system's generator fails.
pub fn secret_key(len: usize) -> (res: Option<String>)
    ensures
        res matches Some(s) ==> is_url_safe_secret(s@, len as int),
{
    let alphabet = url_safe_alphabet();
    let mut rng = match chacha_from_os() {
        Some(g) => g,
        None => {
            return None;
        },
    };
    let mut out = String::new();
    let mut i: usize = 0;
    while i < len
        invariant
            i <= len,
            alphabet@.len() == 64,
            forall|k: int| 0 <= k < alphabet@.len() ==> is_url_safe_char(#[trigger] alphabet@[k] as char),
            is_url_safe_secret(out@, i as int),
        decreases len - i,
    {
        let b: u8 = match choose_byte(alphabet.as_slice(), &mut rng) {
            Some(b) => b,
            None => 120,
        };
        proof {
            let k = choose|k: int| 0 <= k < alphabet@.len() && alphabet@[k] == b;
            assert(is_url_safe_char(alphabet@[k] as char));
        }
        let c = b as char;
        push_char(&mut out, c);
        i = i + 1;
    }
    Some(out)
}

/// The value supplied at setup when it is not blank, otherwise a fresh secret of `len`
/// characters — the "generate a default, let the user accept or override" rule.
pub open spec fn resolved_or_generated(value: Seq<char>, len: int, res: Seq<char>) -> bool {
    if is_blank(value) {
        is_url_safe_secret(res, len)
    } else {
        res == value
    }
}

/// The message when the operating system's random number generator fails.
pub open spec fn entropy_failure_message() -> Seq<char> {
    "the operating system's random number generator failed"@
}

/// Use the user's explicit value if they provided one at setup, otherwise generate a fresh
/// strong secret.
/// `None` only when a secret is needed and the operating system's generator fails.
pub fn resolve_or_gen(value: &str, len: usize) -> (res: Option<String>)
    ensures
        res matches Some(s) ==> resolved_or_generated(value@, len as int, s@),
        !is_blank(value@) ==> res is Some,
{
    if blank(value) {
        secret_key(len)
    } else {
        Some(owned(value))
    }
}

// ---------------------------------------------------------------------------
// the current year
// ---------------------------------------------------------------------------

/// `std::time::SystemTime`, a reading of the system clock, carried through opaque.
#[verifier::external_type_specification]
#[verifier::external_body]
pub struct ExSystemTime(std::time::SystemTime);

/// `SystemTime::now()`: the system clock's current reading. Nothing is claimed of it: it
/// is the time.
#[verifier::external_body]
fn clock_now() -> std::time::SystemTime {
    std::time::SystemTime::now()
}

/// `SystemTime::duration_since(UNIX_EPOCH)`: how long after the epoch the reading lies,
/// `None` where it lies before. Nothing is claimed of the span: it depends on the reading.
#[verifier::external_body]
fn since_epoch(t: &std::time::SystemTime) -> Option<std::time::Duration> {
    t.duration_since(std::time::UNIX_EPOCH).ok()
}

/// `Duration::as_secs()`: the span's whole seconds. Nothing is claimed of the value, which
/// comes from a clock reading.
#[verifier::external_body]
fn whole_secs(d: &std::time::Duration) -> u64 {
    d.as_secs()
}

/// The calendar year approximated from seconds since the epoch: days ÷ 365.2425 + 1970,
/// in integer arithmetic, capped at `i32::MAX`.
pub open spec fn year_of_unix_secs(secs: u64) -> int {
    let q = (secs / 86400) * 10000 / 3652425;
    if q <= i32::MAX - 1970 {
        1970 + q
    } else {
        i32::MAX as int
    }
}

/// The year for a number of seconds since the epoch (see [`year_of_unix_secs`]).
pub fn year_from_unix_secs(secs: u64) -> (res: i32)
    ensures
        res == year_of_unix_secs(secs),
{
    let days: u64 = secs / 86400;
    assert(days * 10000 <= u64::MAX) by (nonlinear_arith)
        requires
            days == secs / 86400,
    ;
    let q: u64 = days * 10000 / 3652425;
    if q <= (i32::MAX - 1970) as u64 {
        1970 + q as i32
    } else {
        i32::MAX
    }
}

/// The current calendar year (1970 when the clock reads before the epoch).
pub fn current_year() -> (res: i32)
    ensures
        exists|secs: u64| res == year_of_unix_secs(secs),
{
    let now = clock_now();
    let secs = match since_epoch(&now) {
        Some(d) => whole_secs(&d),
        None => 0,
    };
    year_from_unix_secs(secs)
}

// ---------------------------------------------------------------------------
// context values
// ---------------------------------------------------------------------------

/// A value in the template context.
#[derive(Debug, Clone)]
pub enum CtxValue {
    Text(String),
    Flag(bool),
    Number(i64),
    /// A nested table of strings, as an ordered list of insertions (a later key wins).
    Table(Vec<(String, String)>),
}

/// What a context value holds.
pub enum CtxView {
    Text(Seq<char>),
    Flag(bool),
    Number(int),
    Table(Seq<(Seq<char>, Seq<char>)>),
}

pub open spec fn ctx_view(v: CtxValue) -> CtxView {
    match v {
        CtxValue::Text(s) => CtxView::Text(s@),
        CtxValue::Flag(b) => CtxView::Flag(b),
        CtxValue::Number(n) => CtxView::Number(n as int),
        CtxValue::Table(t) => CtxView::Table(t@.map_values(|e: (String, String)| (e.0@, e.1@))),
    }
}

/// The (key, value) views of a list of context entries.
pub open spec fn entries_view(v: Seq<(String, CtxValue)>) -> Seq<(Seq<char>, CtxView)> {
    v.map_values(|e: (String, CtxValue)| (e.0@, ctx_view(e.1)))
}

/// Frontends that are single-page apps with their own dev server.
pub open spec fn is_spa(f: Frontend) -> bool {
    f == Frontend::React || f == Frontend::Nuxt || f == Frontend::Vue || f == Frontend::Next
}

pub fn spa_frontend(f: Frontend) -> (res: bool)
    ensures
        res == is_spa(f),
{
    f == Frontend::React || f == Frontend::Nuxt || f == Frontend::Vue || f == Frontend::Next
}

/// The frontend dev server's port: Vite (React, Vue) 5173, Nuxt and Next 3000, none 0.
pub open spec fn dev_port(f: Frontend) -> int {
    match f {
        Frontend::React | Frontend::Vue => 5173,
        Frontend::Nuxt | Frontend::Next => 3000,
        _ => 0,
    }
}

/// The decimal text of [`dev_port`].
pub open spec fn dev_port_text(f: Frontend) -> Seq<char> {
    match f {
        Frontend::React | Frontend::Vue => "5173"@,
        Frontend::Nuxt | Frontend::Next => "3000"@,
        _ => "0"@,
    }
}

fn frontend_dev_port(f: Frontend) -> (res: i64)
    ensures
        res == dev_port(f),
{
    match f {
        Frontend::React | Frontend::Vue => 5173,
        Frontend::Nuxt | Frontend::Next => 3000,
        _ => 0,
    }
}

fn frontend_origin(f: Frontend) -> (res: String)
    ensures
        res@ == "http://localhost:"@ + dev_port_text(f),
{
    match f {
        Frontend::React | Frontend::Vue => crate::text::concat("http://localhost:", "5173"),
        Frontend::Nuxt | Frontend::Next => crate::text::concat("http://localhost:", "3000"),
        _ => crate::text::concat("http://localhost:", "0"),
    }
}

/// Project basics, the slug's case variants, licence and time zone.
pub open spec fn basics_fields(r: Recipe) -> Seq<(Seq<char>, CtxView)> {
    seq![
        ("project_name"@, CtxView::Text(r.project_name@)),
        ("project_slug"@, CtxView::Text(r.project_slug@)),
        ("project_module"@, CtxView::Text(heck_snake(r.project_slug@))),
        ("project_camel"@, CtxView::Text(heck_upper_camel(r.project_slug@))),
        ("project_kebab"@, CtxView::Text(heck_kebab(r.project_slug@))),
        ("project_shouty"@, CtxView::Text(heck_shouty_snake(r.project_slug@))),
        ("description"@, CtxView::Text(r.description@)),
        ("author_name"@, CtxView::Text(r.author_name@)),
        ("author_email"@, CtxView::Text(r.author_email@)),
        ("domain_name"@, CtxView::Text(r.domain_name@)),
        ("license"@, CtxView::Text(r.license.spec_str())),
        ("open_source"@, CtxView::Flag(r.open_source)),
        ("timezone"@, CtxView::Text(r.timezone@)),
    ]
}

fn basics_entries(r: &Recipe) -> (res: Vec<(String, CtxValue)>)
    ensures
        entries_view(res@) == basics_fields(*r),
{
    let mut m: Vec<(String, CtxValue)> = Vec::new();
    m.push((owned("project_name"), CtxValue::Text(owned(r.project_name.as_str()))));
    m.push((owned("project_slug"), CtxValue::Text(owned(r.project_slug.as_str()))));
    m.push((owned("project_module"), CtxValue::Text(to_snake(r.project_slug.as_str()))));
    m.push((owned("project_camel"), CtxValue::Text(to_upper_camel(r.project_slug.as_str()))));
    m.push((owned("project_kebab"), CtxValue::Text(to_kebab(r.project_slug.as_str()))));
    m.push((owned("project_shouty"), CtxValue::Text(to_shouty_snake(r.project_slug.as_str()))));
    m.push((owned("description"), CtxValue::Text(owned(r.description.as_str()))));
    m.push((owned("author_name"), CtxValue::Text(owned(r.author_name.as_str()))));
    m.push((owned("author_email"), CtxValue::Text(owned(r.author_email.as_str()))));
    m.push((owned("domain_name"), CtxValue::Text(owned(r.domain_name.as_str()))));
    m.push((owned("license"), CtxValue::Text(owned(r.license.as_str()))));
    m.push((owned("open_source"), CtxValue::Flag(r.open_source)));
    m.push((owned("timezone"), CtxValue::Text(owned(r.timezone.as_str()))));
    assert(entries_view(m@) =~= basics_fields(*r));
    m
}

/// The stack choices.
pub open spec fn stack_fields(r: Recipe) -> Seq<(Seq<char>, CtxView)> {
    seq![
        ("python_version"@, CtxView::Text(r.python_version.spec_str())),
        ("python_version_short"@, CtxView::Text(r.python_version.spec_short())),
        ("django_version"@, CtxView::Text(r.django_version.spec_str())),
        ("mode"@, CtxView::Text(r.mode.spec_str())),
        ("relational_db"@, CtxView::Text(r.relational_db.spec_str())),
        ("graph_db"@, CtxView::Text(r.graph_db.spec_str())),
        ("api_layer"@, CtxView::Text(r.api_layer.spec_str())),
        ("frontend"@, CtxView::Text(r.frontend.spec_str())),
        ("radix_flavor"@, CtxView::Text(match r.radix_flavor { Some(f) => f.spec_str(), None => "none"@ })),
        ("js_language"@, CtxView::Text(r.js_language.spec_str())),
        ("is_typescript"@, CtxView::Flag(r.js_language == JsLanguage::Typescript)),
        ("js_testing"@, CtxView::Flag(r.js_testing)),
        ("css_framework"@, CtxView::Text(r.css_framework.spec_str())),
    ]
}

fn stack_entries(r: &Recipe) -> (res: Vec<(String, CtxValue)>)
    ensures
        entries_view(res@) == stack_fields(*r),
{
    let mut m: Vec<(String, CtxValue)> = Vec::new();
    m.push((owned("python_version"), CtxValue::Text(owned(r.python_version.dotted()))));
    m.push((owned("python_version_short"), CtxValue::Text(owned(r.python_version.short()))));
    m.push((owned("django_version"), CtxValue::Text(owned(r.django_version.as_str()))));
    m.push((owned("mode"), CtxValue::Text(owned(r.mode.as_str()))));
    m.push((owned("relational_db"), CtxValue::Text(owned(r.relational_db.as_str()))));
    m.push((owned("graph_db"), CtxValue::Text(owned(r.graph_db.as_str()))));
    m.push((owned("api_layer"), CtxValue::Text(owned(r.api_layer.as_str()))));
    m.push((owned("frontend"), CtxValue::Text(owned(r.frontend.as_str()))));
    m.push((owned("radix_flavor"), CtxValue::Text(owned(match r.radix_flavor { Some(f) => f.as_str(), None => "none" }))));
    m.push((owned("js_language"), CtxValue::Text(owned(r.js_language.as_str()))));
    m.push((owned("is_typescript"), CtxValue::Flag(r.js_language == JsLanguage::Typescript)));
    m.push((owned("js_testing"), CtxValue::Flag(r.js_testing)));
    m.push((owned("css_framework"), CtxValue::Text(owned(r.css_framework.as_str()))));
    assert(entries_view(m@) =~= stack_fields(*r));
    m
}

/// The add-on choices.
pub open spec fn addons_fields(r: Recipe) -> Seq<(Seq<char>, CtxView)> {
    seq![
        ("use_celery"@, CtxView::Flag(r.use_celery)),
        ("celery_broker"@, CtxView::Text(r.celery_broker.spec_str())),
        ("use_mailpit"@, CtxView::Flag(r.use_mailpit)),
        ("prod_email"@, CtxView::Text(r.prod_email.spec_str())),
        ("storage"@, CtxView::Text(r.storage.spec_str())),
        ("use_sentry"@, CtxView::Flag(r.use_sentry)),
        ("use_observability"@, CtxView::Flag(r.use_observability)),
        ("use_feature_flags"@, CtxView::Flag(r.use_feature_flags)),
        ("multi_tenant"@, CtxView::Flag(r.multi_tenant)),
        ("type_checker"@, CtxView::Text(r.type_checker.spec_str())),
        ("use_pre_commit"@, CtxView::Flag(r.use_pre_commit)),
        ("ci"@, CtxView::Text(r.ci.spec_str())),
        ("container_setup"@, CtxView::Text(r.container_setup.spec_str())),
        ("version_control"@, CtxView::Text(r.version_control.spec_str())),
    ]
}

fn addons_entries(r: &Recipe) -> (res: Vec<(String, CtxValue)>)
    ensures
        entries_view(res@) == addons_fields(*r),
{
    let mut m: Vec<(String, CtxValue)> = Vec::new();
    m.push((owned("use_celery"), CtxValue::Flag(r.use_celery)));
    m.push((owned("celery_broker"), CtxValue::Text(owned(r.celery_broker.as_str()))));
    m.push((owned("use_mailpit"), CtxValue::Flag(r.use_mailpit)));
    m.push((owned("prod_email"), CtxValue::Text(owned(r.prod_email.as_str()))));
    m.push((owned("storage"), CtxValue::Text(owned(r.storage.as_str()))));
    m.push((owned("use_sentry"), CtxValue::Flag(r.use_sentry)));
    m.push((owned("use_observability"), CtxValue::Flag(r.use_observability)));
    m.push((owned("use_feature_flags"), CtxValue::Flag(r.use_feature_flags)));
    m.push((owned("multi_tenant"), CtxValue::Flag(r.multi_tenant)));
    m.push((owned("type_checker"), CtxValue::Text(owned(r.type_checker.as_str()))));
    m.push((owned("use_pre_commit"), CtxValue::Flag(r.use_pre_commit)));
    m.push((owned("ci"), CtxValue::Text(owned(r.ci.as_str()))));
    m.push((owned("container_setup"), CtxValue::Text(owned(r.container_setup.as_str()))));
    m.push((owned("version_control"), CtxValue::Text(owned(r.version_control.as_str()))));
    assert(entries_view(m@) =~= addons_fields(*r));
    m
}

/// Booleans and frontend settings derived from the choices.
pub open spec fn derived_fields(r: Recipe) -> Seq<(Seq<char>, CtxView)> {
    seq![
        ("is_postgres"@, CtxView::Flag(r.relational_db == RelationalDb::Postgres)),
        ("is_sqlite"@, CtxView::Flag(r.relational_db == RelationalDb::Sqlite)),
        ("is_mysqlish"@, CtxView::Flag(r.relational_db == RelationalDb::Mysql || r.relational_db == RelationalDb::Mariadb)),
        ("is_mysql"@, CtxView::Flag(r.relational_db == RelationalDb::Mysql)),
        ("is_mariadb"@, CtxView::Flag(r.relational_db == RelationalDb::Mariadb)),
        ("has_api"@, CtxView::Flag(r.api_layer != ApiLayer::Nothing)),
        ("has_frontend_spa"@, CtxView::Flag(is_spa(r.frontend))),
        ("wants_docker"@, CtxView::Flag(r.container_setup != ContainerSetup::Nothing)),
        ("wants_traefik"@, CtxView::Flag(r.container_setup == ContainerSetup::ComposeTraefik)),
        ("frontend_dev_port"@, CtxView::Number(dev_port(r.frontend))),
        ("frontend_origin"@, CtxView::Text("http://localhost:"@ + dev_port_text(r.frontend))),
        ("has_typed_api"@, CtxView::Flag(r.api_layer == ApiLayer::Ninja || r.api_layer == ApiLayer::Drf)),
        ("frontend_variant"@, CtxView::Text(r.frontend_variant.spec_str())),
        ("is_full_template"@, CtxView::Flag(r.frontend_variant == FrontendVariant::Full)),
        ("is_skeleton"@, CtxView::Flag(r.frontend_variant == FrontendVariant::Skeleton)),
    ]
}

fn derived_entries(r: &Recipe) -> (res: Vec<(String, CtxValue)>)
    ensures
        entries_view(res@) == derived_fields(*r),
{
    let mut m: Vec<(String, CtxValue)> = Vec::new();
    m.push((owned("is_postgres"), CtxValue::Flag(r.relational_db == RelationalDb::Postgres)));
    m.push((owned("is_sqlite"), CtxValue::Flag(r.relational_db == RelationalDb::Sqlite)));
    m.push((owned("is_mysqlish"), CtxValue::Flag(r.relational_db == RelationalDb::Mysql || r.relational_db == RelationalDb::Mariadb)));
    m.push((owned("is_mysql"), CtxValue::Flag(r.relational_db == RelationalDb::Mysql)));
    m.push((owned("is_mariadb"), CtxValue::Flag(r.relational_db == RelationalDb::Mariadb)));
    m.push((owned("has_api"), CtxValue::Flag(r.api_layer != ApiLayer::Nothing)));
    m.push((owned("has_frontend_spa"), CtxValue::Flag(spa_frontend(r.frontend))));
    m.push((owned("wants_docker"), CtxValue::Flag(r.container_setup != ContainerSetup::Nothing)));
    m.push((owned("wants_traefik"), CtxValue::Flag(r.container_setup == ContainerSetup::ComposeTraefik)));
    m.push((owned("frontend_dev_port"), CtxValue::Number(frontend_dev_port(r.frontend))));
    m.push((owned("frontend_origin"), CtxValue::Text(frontend_origin(r.frontend))));
    m.push((owned("has_typed_api"), CtxValue::Flag(r.api_layer == ApiLayer::Ninja || r.api_layer == ApiLayer::Drf)));
    m.push((owned("frontend_variant"), CtxValue::Text(owned(r.frontend_variant.as_str()))));
    m.push((owned("is_full_template"), CtxValue::Flag(r.frontend_variant == FrontendVariant::Full)));
    m.push((owned("is_skeleton"), CtxValue::Flag(r.frontend_variant == FrontendVariant::Skeleton)));
    assert(entries_view(m@) =~= derived_fields(*r));
    m
}

/// The recipe's user-facing fields (prompt answers and derived values), in insertion order.
pub open spec fn recipe_field_entries(r: Recipe) -> Seq<(Seq<char>, CtxView)> {
    basics_fields(r) + stack_fields(r) + addons_fields(r) + derived_fields(r)
}

fn append_entries(v: &mut Vec<(String, CtxValue)>, more: Vec<(String, CtxValue)>)
    ensures
        entries_view(final(v)@) == entries_view(old(v)@) + entries_view(more@),
{
    let ghost start = v@;
    let ghost m = more@;
    let mut more = more;
    v.append(&mut more);
    assert(entries_view(v@) =~= entries_view(start) + entries_view(m));
}

/// The context sets the flag `key` to `b`.
pub open spec fn sets_flag(entries: Seq<(Seq<char>, CtxView)>, key: Seq<char>, b: bool) -> bool {
    entries.contains((key, CtxView::Flag(b)))
}

/// The database flags `is_postgres`, `is_sqlite` and `is_mysqlish` each appear in the
/// recipe's fields only once, at the derived block.
proof fn lemma_family_flags_once(r: Recipe, i: int)
    requires
        0 <= i < recipe_field_entries(r).len(),
        recipe_field_entries(r)[i].1 is Flag,
        recipe_field_entries(r)[i].0 == "is_postgres"@ || recipe_field_entries(r)[i].0
            == "is_sqlite"@ || recipe_field_entries(r)[i].0 == "is_mysqlish"@,
    ensures
        40 <= i <= 42,
{
    let e = recipe_field_entries(r);
    reveal_strlit("open_source");
    reveal_strlit("is_typescript");
    reveal_strlit("js_testing");
    reveal_strlit("use_celery");
    reveal_strlit("use_mailpit");
    reveal_strlit("use_sentry");
    reveal_strlit("use_observability");
    reveal_strlit("use_feature_flags");
    reveal_strlit("multi_tenant");
    reveal_strlit("use_pre_commit");
    reveal_strlit("is_postgres");
    reveal_strlit("is_sqlite");
    reveal_strlit("is_mysqlish");
    reveal_strlit("is_mysql");
    reveal_strlit("is_mariadb");
    reveal_strlit("has_api");
    reveal_strlit("has_frontend_spa");
    reveal_strlit("wants_docker");
    reveal_strlit("wants_traefik");
    reveal_strlit("has_typed_api");
    reveal_strlit("is_full_template");
    reveal_strlit("is_skeleton");
    assert(e.len() == 55);
        if i == 0 {
            assert(e[0].0 == "project_name"@);
            assert(!(e[0].1 is Flag));
        } else if i == 1 {
            assert(e[1].0 == "project_slug"@);
            assert(!(e[1].1 is Flag));
        } else if i == 2 {
            assert(e[2].0 == "project_module"@);
            assert(!(e[2].1 is Flag));
        } else if i == 3 {
            assert(e[3].0 == "project_camel"@);
            assert(!(e[3].1 is Flag));
        } else if i == 4 {
            assert(e[4].0 == "project_kebab"@);
            assert(!(e[4].1 is Flag));
        } else if i == 5 {
            assert(e[5].0 == "project_shouty"@);
            assert(!(e[5].1 is Flag));
        } else if i == 6 {
            assert(e[6].0 == "description"@);
            assert(!(e[6].1 is Flag));
        } else if i == 7 {
            assert(e[7].0 == "author_name"@);
            assert(!(e[7].1 is Flag));
        } else if i == 8 {
            assert(e[8].0 == "author_email"@);
            assert(!(e[8].1 is Flag));
        } else if i == 9 {
            assert(e[9].0 == "domain_name"@);
            assert(!(e[9].1 is Flag));
        } else if i == 10 {
            assert(e[10].0 == "license"@);
            assert(!(e[10].1 is Flag));
        } else if i == 11 {
            assert(e[11].0 == "open_source"@);
            assert("open_source"@[0] != "is_postgres"@[0]);
            assert("open_source"@.len() != "is_sqlite"@.len());
            assert("open_source"@[0] != "is_mysqlish"@[0]);
        } else if i == 12 {
            assert(e[12].0 == "timezone"@);
            assert(!(e[12].1 is Flag));
        } else if i == 13 {
            assert(e[13].0 == "python_version"@);
            assert(!(e[13].1 is Flag));
        } else if i == 14 {
            assert(e[14].0 == "python_version_short"@);
            assert(!(e[14].1 is Flag));
        } else if i == 15 {
            assert(e[15].0 == "django_version"@);
            assert(!(e[15].1 is Flag));
        } else if i == 16 {
            assert(e[16].0 == "mode"@);
            assert(!(e[16].1 is Flag));
        } else if i == 17 {
            assert(e[17].0 == "relational_db"@);
            assert(!(e[17].1 is Flag));
        } else if i == 18 {
            assert(e[18].0 == "graph_db"@);
            assert(!(e[18].1 is Flag));
        } else if i == 19 {
            assert(e[19].0 == "api_layer"@);
            assert(!(e[19].1 is Flag));
        } else if i == 20 {
            assert(e[20].0 == "frontend"@);
            assert(!(e[20].1 is Flag));
        } else if i == 21 {
            assert(e[21].0 == "radix_flavor"@);
            assert(!(e[21].1 is Flag));
        } else if i == 22 {
            assert(e[22].0 == "js_language"@);
            assert(!(e[22].1 is Flag));
        } else if i == 23 {
            assert(e[23].0 == "is_typescript"@);
            assert("is_typescript"@.len() != "is_postgres"@.len());
            assert("is_typescript"@.len() != "is_sqlite"@.len());
            assert("is_typescript"@.len() != "is_mysqlish"@.len());
        } else if i == 24 {
            assert(e[24].0 == "js_testing"@);
            assert("js_testing"@.len() != "is_postgres"@.len());
            assert("js_testing"@.len() != "is_sqlite"@.len());
            assert("js_testing"@.len() != "is_mysqlish"@.len());
        } else if i == 25 {
            assert(e[25].0 == "css_framework"@);
            assert(!(e[25].1 is Flag));
        } else if i == 26 {
            assert(e[26].0 == "use_celery"@);
            assert("use_celery"@.len() != "is_postgres"@.len());
            assert("use_celery"@.len() != "is_sqlite"@.len());
            assert("use_celery"@.len() != "is_mysqlish"@.len());
        } else if i == 27 {
            assert(e[27].0 == "celery_broker"@);
            assert(!(e[27].1 is Flag));
        } else if i == 28 {
            assert(e[28].0 == "use_mailpit"@);
            assert("use_mailpit"@[0] != "is_postgres"@[0]);
            assert("use_mailpit"@.len() != "is_sqlite"@.len());
            assert("use_mailpit"@[0] != "is_mysqlish"@[0]);
        } else if i == 29 {
            assert(e[29].0 == "prod_email"@);
            assert(!(e[29].1 is Flag));
        } else if i == 30 {
            assert(e[30].0 == "storage"@);
            assert(!(e[30].1 is Flag));
        } else if i == 31 {
            assert(e[31].0 == "use_sentry"@);
            assert("use_sentry"@.len() != "is_postgres"@.len());
            assert("use_sentry"@.len() != "is_sqlite"@.len());
            assert("use_sentry"@.len() != "is_mysqlish"@.len());
        } else if i == 32 {
            assert(e[32].0 == "use_observability"@);
            assert("use_observability"@.len() != "is_postgres"@.len());
            assert("use_observability"@.len() != "is_sqlite"@.len());
            assert("use_observability"@.len() != "is_mysqlish"@.len());
        } else if i == 33 {
            assert(e[33].0 == "use_feature_flags"@);
            assert("use_feature_flags"@.len() != "is_postgres"@.len());
            assert("use_feature_flags"@.len() != "is_sqlite"@.len());
            assert("use_feature_flags"@.len() != "is_mysqlish"@.len());
        } else if i == 34 {
            assert(e[34].0 == "multi_tenant"@);
            assert("multi_tenant"@.len() != "is_postgres"@.len());
            assert("multi_tenant"@.len() != "is_sqlite"@.len());
            assert("multi_tenant"@.len() != "is_mysqlish"@.len());
        } else if i == 35 {
            assert(e[35].0 == "type_checker"@);
            assert(!(e[35].1 is Flag));
        } else if i == 36 {
            assert(e[36].0 == "use_pre_commit"@);
            assert("use_pre_commit"@.len() != "is_postgres"@.len());
            assert("use_pre_commit"@.len() != "is_sqlite"@.len());
            assert("use_pre_commit"@.len() != "is_mysqlish"@.len());
        } else if i == 37 {
            assert(e[37].0 == "ci"@);
            assert(!(e[37].1 is Flag));
        } else if i == 38 {
            assert(e[38].0 == "container_setup"@);
            assert(!(e[38].1 is Flag));
        } else if i == 39 {
            assert(e[39].0 == "version_control"@);
            assert(!(e[39].1 is Flag));
        } else if i == 40 {
            assert(e[40].0 == "is_postgres"@);
        } else if i == 41 {
            assert(e[41].0 == "is_sqlite"@);
        } else if i == 42 {
            assert(e[42].0 == "is_mysqlish"@);
        } else if i == 43 {
            assert(e[43].0 == "is_mysql"@);
            assert("is_mysql"@.len() != "is_postgres"@.len());
            assert("is_mysql"@.len() != "is_sqlite"@.len());
            assert("is_mysql"@.len() != "is_mysqlish"@.len());
        } else if i == 44 {
            assert(e[44].0 == "is_mariadb"@);
            assert("is_mariadb"@.len() != "is_postgres"@.len());
            assert("is_mariadb"@.len() != "is_sqlite"@.len());
            assert("is_mariadb"@.len() != "is_mysqlish"@.len());
        } else if i == 45 {
            assert(e[45].0 == "has_api"@);
            assert("has_api"@.len() != "is_postgres"@.len());
            assert("has_api"@.len() != "is_sqlite"@.len());
            assert("has_api"@.len() != "is_mysqlish"@.len());
        } else if i == 46 {
            assert(e[46].0 == "has_frontend_spa"@);
            assert("has_frontend_spa"@.len() != "is_postgres"@.len());
            assert("has_frontend_spa"@.len() != "is_sqlite"@.len());
            assert("has_frontend_spa"@.len() != "is_mysqlish"@.len());
        } else if i == 47 {
            assert(e[47].0 == "wants_docker"@);
            assert("wants_docker"@.len() != "is_postgres"@.len());
            assert("wants_docker"@.len() != "is_sqlite"@.len());
            assert("wants_docker"@.len() != "is_mysqlish"@.len());
        } else if i == 48 {
            assert(e[48].0 == "wants_traefik"@);
            assert("wants_traefik"@.len() != "is_postgres"@.len());
            assert("wants_traefik"@.len() != "is_sqlite"@.len());
            assert("wants_traefik"@.len() != "is_mysqlish"@.len());
        } else if i == 49 {
            assert(e[49].0 == "frontend_dev_port"@);
            assert(!(e[49].1 is Flag));
        } else if i == 50 {
            assert(e[50].0 == "frontend_origin"@);
            assert(!(e[50].1 is Flag));
        } else if i == 51 {
            assert(e[51].0 == "has_typed_api"@);
            assert("has_typed_api"@.len() != "is_postgres"@.len());
            assert("has_typed_api"@.len() != "is_sqlite"@.len());
            assert("has_typed_api"@.len() != "is_mysqlish"@.len());
        } else if i == 52 {
            assert(e[52].0 == "frontend_variant"@);
            assert(!(e[52].1 is Flag));
        } else if i == 53 {
            assert(e[53].0 == "is_full_template"@);
            assert("is_full_template"@.len() != "is_postgres"@.len());
            assert("is_full_template"@.len() != "is_sqlite"@.len());
            assert("is_full_template"@.len() != "is_mysqlish"@.len());
        } else if i == 54 {
            assert(e[54].0 == "is_skeleton"@);
            assert("is_skeleton"@[3] != "is_postgres"@[3]);
            assert("is_skeleton"@.len() != "is_sqlite"@.len());
            assert("is_skeleton"@[3] != "is_mysqlish"@[3]);
        }
}

/// The database family flags of the context: `is_mysqlish` is set for MySQL and for
/// MariaDB alike and for nothing else, and exactly one of `is_postgres`, `is_sqlite` and
/// `is_mysqlish` is set, whichever database the recipe names.
pub proof fn law_database_family_flags(r: Recipe)
    ensures
        sets_flag(recipe_field_entries(r), "is_mysqlish"@, true) <==> (r.relational_db
            == RelationalDb::Mysql || r.relational_db == RelationalDb::Mariadb),
        sets_flag(recipe_field_entries(r), "is_postgres"@, true) <==> r.relational_db
            == RelationalDb::Postgres,
        sets_flag(recipe_field_entries(r), "is_sqlite"@, true) <==> r.relational_db
            == RelationalDb::Sqlite,
        (if sets_flag(recipe_field_entries(r), "is_postgres"@, true) { 1int } else { 0 }) + (if sets_flag(
            recipe_field_entries(r),
            "is_sqlite"@,
            true,
        ) { 1int } else { 0 }) + (if sets_flag(recipe_field_entries(r), "is_mysqlish"@, true) {
            1int
        } else {
            0
        }) == 1,
{
    let e = recipe_field_entries(r);
    assert(e[40] == ("is_postgres"@, CtxView::Flag(r.relational_db == RelationalDb::Postgres)));
    assert(e[41] == ("is_sqlite"@, CtxView::Flag(r.relational_db == RelationalDb::Sqlite)));
    assert(e[42] == ("is_mysqlish"@, CtxView::Flag(r.relational_db == RelationalDb::Mysql
        || r.relational_db == RelationalDb::Mariadb)));
    reveal_strlit("is_postgres");
    reveal_strlit("is_sqlite");
    reveal_strlit("is_mysqlish");
    assert forall|k: Seq<char>, b: bool|
        (k == "is_postgres"@ || k == "is_sqlite"@ || k == "is_mysqlish"@) && #[trigger] e.contains(
            (k, CtxView::Flag(b)),
        ) implies (k == "is_postgres"@ ==> e[40] == (k, CtxView::Flag(b))) && (k == "is_sqlite"@
        ==> e[41] == (k, CtxView::Flag(b))) && (k == "is_mysqlish"@ ==> e[42] == (k, CtxView::Flag(
        b,
    ))) by {
        let i = choose|i: int| 0 <= i < e.len() && e[i] == (k, CtxView::Flag(b));
        lemma_family_flags_once(r, i);
        assert("is_postgres"@[3] != "is_mysqlish"@[3]);
        assert("is_sqlite"@.len() != "is_mysqlish"@.len());
        assert("is_sqlite"@.len() != "is_postgres"@.len());
    }
}

/// The recipe's user-facing fields, flattened: prompt answers, the slug's case variants,
/// and derived booleans (`is_postgres`, `has_frontend_spa`, ...).
pub fn recipe_fields(r: &Recipe) -> (res: Vec<(String, CtxValue)>)
    ensures
        entries_view(res@) == recipe_field_entries(*r),
{
    let mut m = basics_entries(r);
    append_entries(&mut m, stack_entries(r));
    append_entries(&mut m, addons_entries(r));
    append_entries(&mut m, derived_entries(r));
    m
}

// ---------------------------------------------------------------------------
// engine extras
// ---------------------------------------------------------------------------

/// The bakery version recorded in generated projects.
pub const BAKERY_VERSION: &'static str = "0.1.0";

/// The keys of the engine extras, in insertion order.
pub open spec fn extras_keys() -> Seq<Seq<char>> {
    seq![
        "year"@,
        "django_secret_key"@,
        "db_password"@,
        "postgres_password"@,
        "redis_password"@,
        "traefik_basic_auth"@,
        "superuser_email"@,
        "superuser_password"@,
        "flower_user"@,
        "flower_password"@,
        "allowed_hosts"@,
        "admin_url_suffix"@,
        "bakery_version"@,
    ]
}

/// The text a context value holds (empty for other values).
pub open spec fn text_of(v: CtxView) -> Seq<char> {
    match v {
        CtxView::Text(s) => s,
        _ => seq![],
    }
}

/// A fresh lower-case secret: URL-safe characters, none of them an upper-case letter.
pub open spec fn is_lower_secret(s: Seq<char>, len: int) -> bool {
    is_url_safe_secret(s, len) && forall|i: int| 0 <= i < s.len() ==> !('A' <= #[trigger] s[i] && s[i] <= 'Z')
}

/// What every run's engine extras satisfy, whatever chance and the clock gave:
/// the current year; fresh 50-character Django and 32-character Traefik secrets; the
/// database password (shared by `db_password` and its alias `postgres_password`), the
/// Redis, superuser and Flower passwords taken from the recipe unless blank, else freshly
/// generated (40, 32, 32 and 24 characters); the superuser e-mail falling back to the
/// author's; the Flower user falling back to `flower`; the allowed hosts as given; the
/// admin URL suffix as given unless blank, else a fresh 16-character lower-case secret;
/// the bakery version.
pub open spec fn extras_ok(r: Recipe, e: Seq<(Seq<char>, CtxView)>) -> bool {
    &&& e.len() == 13
    &&& forall|i: int| 0 <= i < 13 ==> #[trigger] e[i].0 == extras_keys()[i]
    &&& e[0].1 matches CtxView::Number(y) && exists|secs: u64| y == year_of_unix_secs(secs)
    &&& e[1].1 is Text && is_url_safe_secret(text_of(e[1].1), 50)
    &&& e[2].1 is Text && resolved_or_generated(r.db_password@, 40, text_of(e[2].1))
    &&& e[3].1 == e[2].1
    &&& e[4].1 is Text && resolved_or_generated(r.redis_password@, 32, text_of(e[4].1))
    &&& e[5].1 is Text && is_url_safe_secret(text_of(e[5].1), 32)
    &&& e[6].1 == CtxView::Text(
        if is_blank(r.superuser_email@) {
            r.author_email@
        } else {
            r.superuser_email@
        },
    )
    &&& e[7].1 is Text && resolved_or_generated(r.superuser_password@, 32, text_of(e[7].1))
    &&& e[8].1 == CtxView::Text(
        if is_blank(r.flower_user@) {
            "flower"@
        } else {
            r.flower_user@
        },
    )
    &&& e[9].1 is Text && resolved_or_generated(r.flower_password@, 24, text_of(e[9].1))
    &&& e[10].1 == CtxView::Text(r.allowed_hosts@)
    &&& e[11].1 is Text && (if is_blank(r.admin_url_suffix@) {
        is_lower_secret(text_of(e[11].1), 16)
    } else {
        text_of(e[11].1) == r.admin_url_suffix@
    })
    &&& e[12].1 == CtxView::Text(BAKERY_VERSION@)
}

/// A fresh lower-case secret of `len` characters; `None` when the operating system's
/// generator fails.
pub fn lower_secret(len: usize) -> (res: Option<String>)
    ensures
        res matches Some(s) ==> is_lower_secret(s@, len as int),
{
    let s = match secret_key(len) {
        Some(s) => s,
        None => {
            return None;
        },
    };
    let cs = chars_of(s.as_str());
    let low = lower_all(&cs);
    proof {
        assert forall|i: int| 0 <= i < low@.len() implies is_url_safe_char(#[trigger] low@[i]) && !(
        'A' <= low@[i] && low@[i] <= 'Z') by {
            assert(low@[i] == crate::text::ascii_lower(cs@[i]));
            assert(is_url_safe_char(cs@[i]));
        }
    }
    Some(string_from_chars(&low))
}

/// Engine-side extras addressed under `bakery.*`: random secrets, the current year, the
/// credentials chosen at setup (or generated), the bakery version. `None` only when a
/// secret is needed and the operating system's generator fails.
pub fn engine_extras(r: &Recipe) -> (res: Option<Vec<(String, CtxValue)>>)
    ensures
        res matches Some(v) ==> extras_ok(*r, entries_view(v@)),
{
    let year = current_year();
    let django_secret_key = match secret_key(50) {
        Some(k) => k,
        None => {
            return None;
        },
    };
    let db_password = match resolve_or_gen(r.db_password.as_str(), 40) {
        Some(k) => k,
        None => {
            return None;
        },
    };
    let redis_password = match resolve_or_gen(r.redis_password.as_str(), 32) {
        Some(k) => k,
        None => {
            return None;
        },
    };
    let traefik_basic_auth = match secret_key(32) {
        Some(k) => k,
        None => {
            return None;
        },
    };
    let superuser_password = match resolve_or_gen(r.superuser_password.as_str(), 32) {
        Some(k) => k,
        None => {
            return None;
        },
    };
    let flower_password = match resolve_or_gen(r.flower_password.as_str(), 24) {
        Some(k) => k,
        None => {
            return None;
        },
    };
    let admin_url_suffix = if blank(r.admin_url_suffix.as_str()) {
        match lower_secret(16) {
            Some(k) => k,
            None => {
                return None;
            },
        }
    } else {
        owned(r.admin_url_suffix.as_str())
    };
    let mut m: Vec<(String, CtxValue)> = Vec::new();
    m.push((owned("year"), CtxValue::Number(year as i64)));
    m.push((owned("django_secret_key"), CtxValue::Text(django_secret_key)));
    let db_alias = owned(db_password.as_str());
    m.push((owned("db_password"), CtxValue::Text(db_password)));
    m.push((owned("postgres_password"), CtxValue::Text(db_alias)));
    m.push((owned("redis_password"), CtxValue::Text(redis_password)));
    m.push((owned("traefik_basic_auth"), CtxValue::Text(traefik_basic_auth)));
    let superuser_email = if blank(r.superuser_email.as_str()) {
        owned(r.author_email.as_str())
    } else {
        owned(r.superuser_email.as_str())
    };
    m.push((owned("superuser_email"), CtxValue::Text(superuser_email)));
    m.push((owned("superuser_password"), CtxValue::Text(superuser_password)));
    let flower_user = if blank(r.flower_user.as_str()) {
        owned("flower")
    } else {
        owned(r.flower_user.as_str())
    };
    m.push((owned("flower_user"), CtxValue::Text(flower_user)));
    m.push((owned("flower_password"), CtxValue::Text(flower_password)));
    m.push((owned("allowed_hosts"), CtxValue::Text(owned(r.allowed_hosts.as_str()))));
    m.push((owned("admin_url_suffix"), CtxValue::Text(admin_url_suffix)));
    m.push((owned("bakery_version"), CtxValue::Text(owned(BAKERY_VERSION))));
    let ghost e = entries_view(m@);
    assert(e.len() == 13);
    assert forall|i: int| 0 <= i < 13 implies #[trigger] e[i].0 == extras_keys()[i] by {}
    Some(m)
}

// ---------------------------------------------------------------------------
// the whole context
// ---------------------------------------------------------------------------

/// The `versions` table: for each pinned package in ascending key order, its full key
/// (`py.django`) and then its short name after the first `.` (`django`); a later write
/// wins, so among equal short names the last key in order does.
pub open spec fn version_table(pairs: Seq<(Seq<char>, Seq<char>)>) -> Seq<(Seq<char>, Seq<char>)>
    decreases pairs.len(),
{
    if pairs.len() == 0 {
        seq![]
    } else {
        let prev = version_table(pairs.drop_last());
        let k = pairs.last().0;
        let v = pairs.last().1;
        let f = crate::text::first_field(k);
        if f.len() < k.len() {
            prev.push((k, v)).push((k.skip(f.len() as int + 1), v))
        } else {
            prev.push((k, v))
        }
    }
}

/// The `bakery` namespace: recipe fields, then engine extras (which win on a shared key),
/// then the `versions` table.
pub open spec fn bakery_entries_ok(
    r: Recipe,
    pairs: Seq<(Seq<char>, Seq<char>)>,
    b: Seq<(Seq<char>, CtxView)>,
) -> bool {
    let n = recipe_field_entries(r).len() as int;
    &&& b.len() == n + 14
    &&& b.take(n) == recipe_field_entries(r)
    &&& extras_ok(r, b.subrange(n, n + 13))
    &&& b[n + 13] == ("versions"@, CtxView::Table(version_table(pairs)))
}

/// Names every template reads under `bakery`.
pub struct Context;

impl Context {
    /// The context for a recipe with the bundled (offline) versions; `None` only when a
    /// secret is needed and the operating system's generator fails.
    pub fn build(recipe: &Recipe) -> (res: Option<Vec<(String, CtxValue)>>)
        ensures
            res matches Some(c) ==> exists|p: Seq<(Seq<char>, Seq<char>)>|
                keys_sorted(p) && pairs_to_map(p) == default_versions() && bakery_entries_ok(
                    *recipe,
                    p,
                    entries_view(c@),
                ),
    {
        let none: Vec<Option<String>> = Vec::new();
        let versions = resolve(recipe, ResolveMode::Offline, &none, &none);
        // Reading the entries yields the table's order invariant for the proof below.
        let _ = versions.entries();
        let res = Self::build_with_versions(recipe, &versions);
        match &res {
            Some(c) => {
                assert(bakery_entries_ok(*recipe, versions.pairs(), entries_view(c@)));
            },
            None => {},
        }
        res
    }

    /// The context for a recipe with a pre-resolved version table (the normal path during
    /// a render), as the ordered list of `bakery` entries; `None` only when a secret is
    /// needed and the operating system's generator fails.
    pub fn build_with_versions(recipe: &Recipe, versions: &VersionMap) -> (res: Option<
        Vec<(String, CtxValue)>,
    >)
        ensures
            res matches Some(c) ==> bakery_entries_ok(*recipe, versions.pairs(), entries_view(c@)),
    {
        let mut bakery = recipe_fields(recipe);
        let ghost fields = entries_view(bakery@);
        let extras = match engine_extras(recipe) {
            Some(e) => e,
            None => {
                return None;
            },
        };
        let ghost ex = entries_view(extras@);
        append_entries(&mut bakery, extras);
        let pairs = versions.entries();
        let ghost pv = crate::version_map::views_of(pairs@);
        let mut table: Vec<(String, String)> = Vec::new();
        let mut i: usize = 0;
        assert(pv.take(0) =~= seq![]);
        while i < pairs.len()
            invariant
                i <= pairs.len(),
                pv == crate::version_map::views_of(pairs@),
                entries_view(bakery@) == fields + ex,
                fields == recipe_field_entries(*recipe),
                extras_ok(*recipe, ex),
                table@.map_values(|e: (String, String)| (e.0@, e.1@)) == version_table(pv.take(i as int)),
            decreases pairs.len() - i,
        {
            assert(pv.take(i + 1).drop_last() =~= pv.take(i as int));
            assert(pv[i as int] == (pairs@[i as int].0@, pairs@[i as int].1@));
            let k = pairs[i].0.as_str();
            let v = pairs[i].1.as_str();
            let ghost prev = table@;
            table.push((owned(k), owned(v)));
            let f = crate::text::first_field_of(k);
            let kc = chars_of(k);
            proof {
                crate::text::lemma_first_field(k@);
            }
            if f.len() < kc.len() {
                let mut short: Vec<char> = Vec::new();
                let mut j: usize = f.len() + 1;
                while j < kc.len()
                    invariant
                        f.len() + 1 <= j <= kc.len(),
                        short@ == kc@.subrange(f.len() + 1, j as int),
                    decreases kc.len() - j,
                {
                    short.push(kc[j]);
                    assert(short@ =~= kc@.subrange(f.len() + 1, j + 1));
                    j = j + 1;
                }
                assert(short@ =~= k@.skip(f@.len() as int + 1));
                table.push((string_from_chars(&short), owned(v)));
            }
            assert(table@.map_values(|e: (String, String)| (e.0@, e.1@)) =~= version_table(pv.take(i + 1)));
            i = i + 1;
        }
        assert(pv.take(pairs.len() as int) =~= pv);
        let ghost before = entries_view(bakery@);
        bakery.push((owned("versions"), CtxValue::Table(table)));
        proof {
            let b = entries_view(bakery@);
            assert(b =~= before.push(b[b.len() - 1]));
            assert(before == fields + ex);
            assert(ex.len() == 13);
            let n = recipe_field_entries(*recipe).len() as int;
            assert(b.take(n) =~= recipe_field_entries(*recipe));
            assert(b.subrange(n, n + 13) =~= ex);
        }
        Some(bakery)
    }
}

} // verus!
