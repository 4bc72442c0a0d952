//! The template engine (minijinja): an environment set up as the templates expect (HTML
//! escaping only for `.html` templates, undefined values are errors, trailing newlines
//! kept, the project's filters and the `secret_key()` function registered), the `bakery`
//! context as an engine value, and the rendering of entry names and file bodies.
//!
//! The environment and the context are described through names for what the engine holds
//! (which of this library's filters and functions are registered, the settings, what a
//! value holds), so what reaches every render is fixed. What a template renders to is
//! not stated: a template may call `secret_key()`, so two renders of the same source may
//! differ. What is stated is which error a failed render becomes and that a rendered file
//! has no skip lines left; the decisions around a render take its result as an argument
//! (see [`crate::render::plan_entry`]).

use vstd::prelude::*;
use vstd::utf8::{decode_utf8, valid_utf8};

use crate::context::{ctx_view, entries_view, CtxValue, CtxView};
use crate::error;
use crate::filters::{
    camel_case, env_var, kebab_case, register, secret_key_fn, slugify, snake_case,
    template_filter, template_function,
};
use crate::render::{strip_skip_lines, wants_html_escape, without_skip_lines};
use crate::text::owned;

verus! {

#[verifier::external_type_specification]
#[verifier::external_body]
pub struct ExEnvironment<'a>(minijinja::Environment<'a>);

#[verifier::external_type_specification]
#[verifier::external_body]
pub struct ExValue(minijinja::Value);

/// The one-argument text filters the templates use.
#[derive(Debug, Clone, Copy, PartialEq, Eq, Structural)]
pub enum TextFilter {
    Slugify,
    SnakeCase,
    KebabCase,
    CamelCase,
    EnvVar,
}

/// Applies a text filter.
pub fn apply_filter(f: TextFilter, value: String) -> (res: String)
    ensures
        res@ == match f {
            TextFilter::Slugify => crate::filters::heck_kebab(value@),
            TextFilter::SnakeCase => crate::filters::heck_snake(value@),
            TextFilter::KebabCase => crate::filters::heck_kebab(value@),
            TextFilter::CamelCase => crate::filters::heck_upper_camel(value@),
            TextFilter::EnvVar => crate::filters::env_var_spec(value@),
        },
{
    match f {
        TextFilter::Slugify => slugify(value),
        TextFilter::SnakeCase => snake_case(value),
        TextFilter::KebabCase => kebab_case(value),
        TextFilter::CamelCase => camel_case(value),
        TextFilter::EnvVar => env_var(value),
    }
}

/// The functions the templates may call besides their filters.
#[derive(Debug, Clone, Copy, PartialEq, Eq, Structural)]
pub enum TemplateFunction {
    /// `secret_key([len])`, through [`secret_key_fn`].
    SecretKey,
}

/// The filter of this library that `env` runs under `name`: the one registered last under
/// that name with [`add_filter`], or `None` (a built-in filter, or none at all).
pub uninterp spec fn env_filter(env: minijinja::Environment<'static>, name: Seq<char>) -> Option<
    TextFilter,
>;

/// The function of this library that `env` offers under `name`: the one registered last
/// under that name with [`add_secret_key_function`], or `None`.
pub uninterp spec fn env_function(
    env: minijinja::Environment<'static>,
    name: Seq<char>,
) -> Option<TemplateFunction>;

/// Whether `env` treats undefined values strictly (`UndefinedBehavior::Strict`).
pub uninterp spec fn env_strict_undefined(env: minijinja::Environment<'static>) -> bool;

/// Whether `env` keeps a template's trailing newline.
pub uninterp spec fn env_keeps_trailing_newline(env: minijinja::Environment<'static>) -> bool;

/// Whether `env` decides HTML escaping by [`wants_html_escape`] on the template's name.
pub uninterp spec fn env_escapes_by_name(env: minijinja::Environment<'static>) -> bool;

/// `env` and `e` run the same filters and functions of this library.
pub open spec fn same_registrations(
    env: minijinja::Environment<'static>,
    e: minijinja::Environment<'static>,
) -> bool {
    &&& forall|n: Seq<char>| #[trigger] env_filter(env, n) == env_filter(e, n)
    &&& forall|n: Seq<char>| #[trigger] env_function(env, n) == env_function(e, n)
}

/// `minijinja::Environment::new`: the built-in filters, tests and globals, none of this
/// library's filters or functions, lenient undefined values, trailing newlines dropped and
/// escaping by file extension (the crate's defaults, environment.rs and
/// `TemplateConfig::new`).
#[verifier::external_body]
fn environment_new() -> (res: minijinja::Environment<'static>)
    ensures
        forall|n: Seq<char>| #[trigger] env_filter(res, n) is None,
        forall|n: Seq<char>| #[trigger] env_function(res, n) is None,
        !env_strict_undefined(res),
        !env_keeps_trailing_newline(res),
        !env_escapes_by_name(res),
{
    minijinja::Environment::new()
}

/// `Environment::set_auto_escape_callback`, with a callback that asks
/// [`wants_html_escape`] of the template's name: HTML escaping when it says so, none
/// otherwise. Claimed: only the escaping changes.
#[verifier::external_body]
fn set_escape_by_name(env: &mut minijinja::Environment<'static>)
    ensures
        env_escapes_by_name(*final(env)),
        same_registrations(*final(env), *old(env)),
        env_strict_undefined(*final(env)) == env_strict_undefined(*old(env)),
        env_keeps_trailing_newline(*final(env)) == env_keeps_trailing_newline(*old(env)),
{
    env.set_auto_escape_callback(
        |name: &str|
            if wants_html_escape(name) {
                minijinja::AutoEscape::Html
            } else {
                minijinja::AutoEscape::None
            },
    );
}

/// `Environment::set_undefined_behavior`: `Strict` when `strict`, else `Lenient`. Claimed:
/// only the undefined behaviour changes.
#[verifier::external_body]
fn set_undefined_behavior(env: &mut minijinja::Environment<'static>, strict: bool)
    ensures
        env_strict_undefined(*final(env)) == strict,
        same_registrations(*final(env), *old(env)),
        env_keeps_trailing_newline(*final(env)) == env_keeps_trailing_newline(*old(env)),
        env_escapes_by_name(*final(env)) == env_escapes_by_name(*old(env)),
{
    env.set_undefined_behavior(
        if strict {
            minijinja::UndefinedBehavior::Strict
        } else {
            minijinja::UndefinedBehavior::Lenient
        },
    );
}

/// `Environment::set_keep_trailing_newline`. Claimed: only that setting changes.
#[verifier::external_body]
fn set_keep_trailing_newline(env: &mut minijinja::Environment<'static>, yes: bool)
    ensures
        env_keeps_trailing_newline(*final(env)) == yes,
        same_registrations(*final(env), *old(env)),
        env_strict_undefined(*final(env)) == env_strict_undefined(*old(env)),
        env_escapes_by_name(*final(env)) == env_escapes_by_name(*old(env)),
{
    env.set_keep_trailing_newline(yes);
}

/// `Environment::add_filter`: registers `name` as a filter that applies `f` (through
/// [`apply_filter`]), replacing any filter of that name. Claimed: only that filter
/// changes.
#[verifier::external_body]
pub(crate) fn add_filter(env: &mut minijinja::Environment<'static>, name: &'static str, f: TextFilter)
    ensures
        forall|n: Seq<char>|
            #[trigger] env_filter(*final(env), n) == if n == name@ {
                Some(f)
            } else {
                env_filter(*old(env), n)
            },
        forall|n: Seq<char>| #[trigger] env_function(*final(env), n) == env_function(*old(env), n),
        env_strict_undefined(*final(env)) == env_strict_undefined(*old(env)),
        env_keeps_trailing_newline(*final(env)) == env_keeps_trailing_newline(*old(env)),
        env_escapes_by_name(*final(env)) == env_escapes_by_name(*old(env)),
{
    env.add_filter(name, move |value: String| apply_filter(f, value));
}

/// `Environment::add_function`: registers `secret_key([len])` (through [`secret_key_fn`],
/// whose failure message becomes the engine's error) under `name`, replacing any global of
/// that name. Claimed: only that function changes.
#[verifier::external_body]
pub(crate) fn add_secret_key_function(env: &mut minijinja::Environment<'static>, name: &'static str)
    ensures
        forall|n: Seq<char>|
            #[trigger] env_function(*final(env), n) == if n == name@ {
                Some(TemplateFunction::SecretKey)
            } else {
                env_function(*old(env), n)
            },
        forall|n: Seq<char>| #[trigger] env_filter(*final(env), n) == env_filter(*old(env), n),
        env_strict_undefined(*final(env)) == env_strict_undefined(*old(env)),
        env_keeps_trailing_newline(*final(env)) == env_keeps_trailing_newline(*old(env)),
        env_escapes_by_name(*final(env)) == env_escapes_by_name(*old(env)),
{
    env.add_function(
        name,
        |len: Option<usize>|
            secret_key_fn(len).map_err(
                |m| minijinja::Error::new(minijinja::ErrorKind::InvalidOperation, m),
            ),
    );
}

/// What an engine value holds, as far as this library builds them.
pub enum ValueView {
    Text(Seq<char>),
    Flag(bool),
    Number(int),
    /// A map from string keys.
    Table(Map<Seq<char>, ValueView>),
}

/// The map built by inserting `pairs` in order: each key once, a later value for a key
/// replacing an earlier one.
pub open spec fn map_of<V>(pairs: Seq<(Seq<char>, V)>) -> Map<Seq<char>, V>
    decreases pairs.len(),
{
    if pairs.len() == 0 {
        Map::empty()
    } else {
        map_of(pairs.drop_last()).insert(pairs.last().0, pairs.last().1)
    }
}

/// What an engine value built by this library holds.
pub uninterp spec fn value_view(v: minijinja::Value) -> ValueView;

/// `Value::from` on a string: a string value.
#[verifier::external_body]
fn text_value(s: &str) -> (res: minijinja::Value)
    ensures
        value_view(res) == ValueView::Text(s@),
{
    minijinja::Value::from(s)
}

/// `Value::from` on a boolean: a boolean value.
#[verifier::external_body]
fn flag_value(b: bool) -> (res: minijinja::Value)
    ensures
        value_view(res) == ValueView::Flag(b),
{
    minijinja::Value::from(b)
}

/// `Value::from` on an integer: an integer value.
#[verifier::external_body]
fn number_value(n: i64) -> (res: minijinja::Value)
    ensures
        value_view(res) == ValueView::Number(n as int),
{
    minijinja::Value::from(n)
}

/// `Value::from_iter` on (key, value) pairs: a map (a `BTreeMap` in this build) collected
/// from them in order, so each key is held once and a later value for a key replaces an
/// earlier one.
#[verifier::external_body]
fn map_value(pairs: Vec<(String, minijinja::Value)>) -> (res: minijinja::Value)
    ensures
        value_view(res) == ValueView::Table(
            map_of(pairs@.map_values(|p: (String, minijinja::Value)| (p.0@, value_view(p.1)))),
        ),
{
    pairs.into_iter().collect()
}

/// `s` holds no template markup: every tag, expression and comment starts at an opening
/// brace.
pub open spec fn no_markup(s: Seq<char>) -> bool {
    !s.contains('{')
}

/// `Environment::render_str`: renders `source` with `ctx`; a failure comes back as the
/// `Display` text of the engine's error. Claimed, as the lexer shows: markup only starts
/// at an opening brace, and with keep-trailing-newline on no final newline is dropped, so
/// a source without any opening brace renders, without fail, to itself. What a source
/// with markup renders to is left unsaid: a template may call `secret_key()`.
#[verifier::external_body]
fn render_source(
    env: &minijinja::Environment<'static>,
    source: &str,
    ctx: &minijinja::Value,
) -> (res: Result<String, String>)
    ensures
        env_keeps_trailing_newline(*env) && no_markup(source@) ==> res is Ok,
        res matches Ok(s) ==> (env_keeps_trailing_newline(*env) && no_markup(source@) ==> s@
            == source@),
{
    env.render_str(source, ctx).map_err(|e| format!("{e}"))
}

/// `std::str::from_utf8`, copied into a `String`. Claimed, as documented: a text comes
/// back exactly when `bytes` are valid UTF-8, and it is what they decode to.
#[verifier::external_body]
fn utf8_text(bytes: &Vec<u8>) -> (res: Option<String>)
    ensures
        res is Some <==> valid_utf8(bytes@),
        res matches Some(s) ==> s@ == decode_utf8(bytes@),
{
    std::str::from_utf8(bytes.as_slice()).ok().map(|s| s.to_string())
}

/// The message of a template body that is not UTF-8.
pub open spec fn non_utf8_message() -> Seq<char> {
    "embedded template contained non-UTF-8 bytes; tag it as a binary extension"@
}

/// The engine value of a context value: a string, a boolean, a number, or for a table a
/// map of strings.
pub open spec fn ctx_value_view(c: CtxView) -> ValueView {
    match c {
        CtxView::Text(s) => ValueView::Text(s),
        CtxView::Flag(b) => ValueView::Flag(b),
        CtxView::Number(n) => ValueView::Number(n),
        CtxView::Table(t) => ValueView::Table(
            map_of(t.map_values(|e: (Seq<char>, Seq<char>)| (e.0, ValueView::Text(e.1)))),
        ),
    }
}

/// The engine values of the `bakery` entries, in order.
pub open spec fn bakery_values(bakery: Seq<(Seq<char>, CtxView)>) -> Seq<(Seq<char>, ValueView)> {
    bakery.map_values(|e: (Seq<char>, CtxView)| (e.0, ctx_value_view(e.1)))
}

/// The template context: the `bakery` entries as one map (a later entry for a key
/// replacing an earlier one) under the name `bakery`.
pub open spec fn context_view(bakery: Seq<(Seq<char>, CtxView)>) -> ValueView {
    ValueView::Table(map_of(seq![("bakery"@, ValueView::Table(map_of(bakery_values(bakery))))]))
}

/// An environment set up as the templates expect: undefined values are errors, trailing
/// newlines are kept, HTML escaping goes by the template's name, and the library's filters
/// and function are registered under their names.
pub open spec fn is_template_environment(env: minijinja::Environment<'static>) -> bool {
    &&& env_strict_undefined(env)
    &&& env_keeps_trailing_newline(env)
    &&& env_escapes_by_name(env)
    &&& forall|n: Seq<char>| #[trigger] env_filter(env, n) == template_filter(n)
    &&& forall|n: Seq<char>| #[trigger] env_function(env, n) == template_function(n)
}

/// The engine value for a context value.
fn ctx_to_value(v: &CtxValue) -> (res: minijinja::Value)
    ensures
        value_view(res) == ctx_value_view(ctx_view(*v)),
{
    match v {
        CtxValue::Text(s) => text_value(s.as_str()),
        CtxValue::Flag(b) => flag_value(*b),
        CtxValue::Number(n) => number_value(*n),
        CtxValue::Table(t) => {
            let ghost tv = t@.map_values(|e: (String, String)| (e.0@, e.1@));
            let mut pairs: Vec<(String, minijinja::Value)> = Vec::new();
            let mut i: usize = 0;
            while i < t.len()
                invariant
                    i <= t.len(),
                    tv == t@.map_values(|e: (String, String)| (e.0@, e.1@)),
                    pairs@.len() == i,
                    pairs@.map_values(|p: (String, minijinja::Value)| (p.0@, value_view(p.1)))
                        == tv.take(i as int).map_values(
                        |e: (Seq<char>, Seq<char>)| (e.0, ValueView::Text(e.1)),
                    ),
                decreases t.len() - i,
            {
                let ghost prev = pairs@;
                let key = owned(t[i].0.as_str());
                let val = text_value(t[i].1.as_str());
                pairs.push((key, val));
                proof {
                    let view = |p: (String, minijinja::Value)| (p.0@, value_view(p.1));
                    let tview = |e: (Seq<char>, Seq<char>)| (e.0, ValueView::Text(e.1));
                    assert(tv[i as int] == (t@[i as int].0@, t@[i as int].1@));
                    assert forall|j: int| 0 <= j < i + 1 implies pairs@.map_values(view)[j]
                        == tv.take(i + 1).map_values(tview)[j] by {
                        if j < i {
                            assert(pairs@[j] == prev[j]);
                            assert(prev.map_values(view)[j] == tv.take(i as int).map_values(tview)[j]);
                        }
                    }
                }
                assert(pairs@.map_values(|p: (String, minijinja::Value)| (p.0@, value_view(p.1)))
                    =~= tv.take(i + 1).map_values(
                    |e: (Seq<char>, Seq<char>)| (e.0, ValueView::Text(e.1)),
                ));
                i = i + 1;
            }
            assert(tv.take(t.len() as int) =~= tv);
            map_value(pairs)
        },
    }
}

/// Renders templates against one recipe's context.
pub struct Renderer {
    env: minijinja::Environment<'static>,
    ctx: minijinja::Value,
    entries: Ghost<Seq<(Seq<char>, CtxView)>>,
}

impl Renderer {
    /// Every renderer's environment is set up as the templates expect.
    #[verifier::type_invariant]
    spec fn well_formed(self) -> bool {
        is_template_environment(self.env)
    }

    /// The `bakery` entries the context was built from.
    pub closed spec fn bakery(&self) -> Seq<(Seq<char>, CtxView)> {
        self.entries@
    }

    /// The template environment every render uses.
    pub closed spec fn environment(&self) -> minijinja::Environment<'static> {
        self.env
    }

    /// What the context every render uses holds.
    pub closed spec fn context(&self) -> ValueView {
        value_view(self.ctx)
    }

    /// An environment set up as the templates expect, with the `bakery` entries (as
    /// [`crate::Context::build_with_versions`] gives them) as the context.
    pub fn new(bakery: &Vec<(String, CtxValue)>) -> (res: Self)
        ensures
            res.bakery() == entries_view(bakery@),
            res.context() == context_view(entries_view(bakery@)),
            is_template_environment(res.environment()),
    {
        let mut env = environment_new();
        set_escape_by_name(&mut env);
        set_undefined_behavior(&mut env, true);
        set_keep_trailing_newline(&mut env, true);
        register(&mut env);
        let ghost bv = entries_view(bakery@);
        let mut fields: Vec<(String, minijinja::Value)> = Vec::new();
        let mut i: usize = 0;
        while i < bakery.len()
            invariant
                i <= bakery.len(),
                bv == entries_view(bakery@),
                fields@.len() == i,
                fields@.map_values(|p: (String, minijinja::Value)| (p.0@, value_view(p.1)))
                    == bakery_values(bv.take(i as int)),
            decreases bakery.len() - i,
        {
            let ghost prev = fields@;
            let key = owned(bakery[i].0.as_str());
            let val = ctx_to_value(&bakery[i].1);
            fields.push((key, val));
            proof {
                let view = |p: (String, minijinja::Value)| (p.0@, value_view(p.1));
                assert(bv[i as int] == (bakery@[i as int].0@, ctx_view(bakery@[i as int].1)));
                assert forall|j: int| 0 <= j < i + 1 implies fields@.map_values(view)[j]
                    == bakery_values(bv.take(i + 1))[j] by {
                    if j < i {
                        assert(fields@[j] == prev[j]);
                        assert(prev.map_values(view)[j] == bakery_values(bv.take(i as int))[j]);
                    }
                }
            }
            assert(fields@.map_values(|p: (String, minijinja::Value)| (p.0@, value_view(p.1)))
                =~= bakery_values(bv.take(i + 1)));
            i = i + 1;
        }
        assert(bv.take(bakery.len() as int) =~= bv);
        let bakery_map = map_value(fields);
        let mut root: Vec<(String, minijinja::Value)> = Vec::new();
        root.push((owned("bakery"), bakery_map));
        let ctx = map_value(root);
        assert(root@.map_values(|p: (String, minijinja::Value)| (p.0@, value_view(p.1)))
            =~= seq![("bakery"@, ValueView::Table(map_of(bakery_values(bv))))]);
        Renderer { env, ctx, entries: Ghost(bv) }
    }

    /// Renders a templated entry name; a failure is a path render error naming the
    /// template. A name without any opening brace holds no markup and comes back unchanged.
    pub fn render_str(&self, source: &str) -> (res: Result<String, error::Error>)
        ensures
            res matches Err(e) ==> (e matches error::Error::PathRender { path, .. } && path@ == source@),
            no_markup(source@) ==> (res matches Ok(s) && s@ == source@),
    {
        proof {
            use_type_invariant(self);
        }
        match render_source(&self.env, source, &self.ctx) {
            Ok(s) => Ok(s),
            Err(e) => Err(error::Error::PathRender { path: owned(source), message: e }),
        }
    }

    /// Renders a template body; a failure is a render error naming the file `name`. A body
    /// without any opening brace holds no markup and comes back unchanged.
    pub fn render_named(&self, name: &str, source: &str) -> (res: Result<String, error::Error>)
        ensures
            res matches Err(e) ==> (e matches error::Error::Render { path, .. } && path@ == name@),
            no_markup(source@) ==> (res matches Ok(s) && s@ == source@),
    {
        proof {
            use_type_invariant(self);
        }
        match render_source(&self.env, source, &self.ctx) {
            Ok(s) => Ok(s),
            Err(e) => Err(error::Error::Render { path: owned(name), message: e }),
        }
    }

    /// The text written for a rendered template file: its body (which must be UTF-8)
    /// rendered, then stripped of skip lines; a body without any opening brace is only stripped. A body that is not UTF-8 is a render error
    /// for `rel`, as is a failed render.
    pub fn render_file(&self, rel: &str, body: &Vec<u8>) -> (res: Result<String, error::Error>)
        ensures
            res matches Err(e) ==> (e matches error::Error::Render { path, .. } && path@ == rel@),
            !valid_utf8(body@) ==> (res matches Err(e) && (e matches error::Error::Render {
                message,
                ..
            } && message@ == non_utf8_message())),
            res matches Ok(s) ==> exists|t: Seq<char>| s@ == without_skip_lines(t),
            valid_utf8(body@) && no_markup(decode_utf8(body@)) ==> (res matches Ok(s) && s@
                == without_skip_lines(decode_utf8(body@))),
    {
        let text = match utf8_text(body) {
            Some(t) => t,
            None => {
                return Err(
                    error::Error::Render {
                        path: owned(rel),
                        message: owned(
                            "embedded template contained non-UTF-8 bytes; tag it as a binary extension",
                        ),
                    },
                );
            },
        };
        let rendered = match self.render_named(rel, text.as_str()) {
            Ok(r) => r,
            Err(e) => {
                return Err(e);
            },
        };
        let cleaned = strip_skip_lines(rendered.as_str());
        assert(cleaned@ == without_skip_lines(rendered@));
        Ok(cleaned)
    }
}

} // verus!
