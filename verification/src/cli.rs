//! What the command line decides before it prints or reads anything: the format of a
//! recipe file from its name, the log level for a verbosity count, the render options for
//! a command's flags, the rows of the recipe summary and the next steps shown after a
//! project is generated.

use vstd::prelude::*;

use crate::options::ContainerSetup;
use crate::recipe::Recipe;
use crate::render::{extension_of, lower_extension, string_views, RenderOptions};
use crate::text::{concat, owned, str_eq};
use crate::versions::ResolveMode;

verus! {

/// The formats a recipe file can be written in.
#[derive(Debug, Clone, Copy, PartialEq, Eq, Structural)]
pub enum RecipeFormat {
    Toml,
    Json,
}

/// The format of a recipe file, by its lower-cased extension; the message for any other
/// extension (empty when the name has none).
pub open spec fn format_of(path: Seq<char>) -> Result<RecipeFormat, Seq<char>> {
    let e = lower_extension(path);
    if e == "toml"@ {
        Ok(RecipeFormat::Toml)
    } else if e == "json"@ {
        Ok(RecipeFormat::Json)
    } else {
        Err("unknown recipe format: ."@ + e + " (expected .toml or .json)"@)
    }
}

/// Picks the parser for a recipe file from its extension: `.toml` or `.json`, in any case.
pub fn recipe_format(path: &str) -> (res: Result<RecipeFormat, String>)
    ensures
        match res {
            Ok(f) => format_of(path@) == Ok::<RecipeFormat, Seq<char>>(f),
            Err(m) => format_of(path@) == Err::<RecipeFormat, Seq<char>>(m@),
        },
{
    let e = extension_of(path);
    if str_eq(e.as_str(), "toml") {
        Ok(RecipeFormat::Toml)
    } else if str_eq(e.as_str(), "json") {
        Ok(RecipeFormat::Json)
    } else {
        let head = concat("unknown recipe format: .", e.as_str());
        Err(concat(head.as_str(), " (expected .toml or .json)"))
    }
}

/// The log filter for a count of `-v` flags.
pub open spec fn level_of(verbose: u8) -> Seq<char> {
    if verbose == 0 {
        "warn"@
    } else if verbose == 1 {
        "info"@
    } else if verbose == 2 {
        "debug"@
    } else {
        "trace"@
    }
}

/// The log filter for a count of `-v` flags: warnings by default, then info, debug and
/// trace.
pub fn log_level(verbose: u8) -> (res: &'static str)
    ensures
        res@ == level_of(verbose),
{
    match verbose {
        0 => "warn",
        1 => "info",
        2 => "debug",
        _ => "trace",
    }
}

/// The render options of `new` and `bake` for their flags: hooks always on, VCS init unless
/// `no_vcs`, offline version resolution when asked.
pub fn command_options(
    output: &str,
    force: bool,
    no_vcs: bool,
    bootstrap: bool,
    offline: bool,
    strict_compat: bool,
) -> (res: RenderOptions)
    ensures
        res.output_dir@ == output@,
        res.force == force,
        res.run_hooks,
        res.git_init == !no_vcs,
        res.bootstrap == bootstrap,
        res.version_mode == (if offline {
            ResolveMode::Offline
        } else {
            ResolveMode::Online
        }),
        res.strict_compat == strict_compat,
{
    let mut opts = RenderOptions::new(output);
    opts.force = force;
    opts.git_init = !no_vcs;
    opts.bootstrap = bootstrap;
    opts.version_mode = if offline {
        ResolveMode::Offline
    } else {
        ResolveMode::Online
    };
    opts.strict_compat = strict_compat;
    opts
}

/// The stack line of the summary: Python, Django, database and API layer.
pub open spec fn stack_line(r: Recipe) -> Seq<char> {
    "Python "@ + r.python_version.spec_str() + " · Django "@ + r.django_version.spec_str()
        + " · "@ + r.relational_db.spec_str() + " · "@ + r.api_layer.spec_str()
}

/// The rows of the recipe summary printed before rendering, as (label, value).
pub open spec fn summary_of(r: Recipe) -> Seq<(Seq<char>, Seq<char>)> {
    seq![
        ("project"@, r.project_name@),
        ("slug"@, r.project_slug@),
        ("stack"@, stack_line(r)),
        ("frontend"@, r.frontend.spec_str()),
    ]
}

/// The rows of the recipe summary printed before rendering: project, slug, stack and
/// frontend.
pub fn summary_rows(r: &Recipe) -> (res: Vec<(&'static str, String)>)
    ensures
        res@.map_values(|row: (&'static str, String)| (row.0@, row.1@)) == summary_of(*r),
{
    let mut stack = owned("Python ");
    stack.append(r.python_version.as_str());
    stack.append(" · Django ");
    stack.append(r.django_version.as_str());
    stack.append(" · ");
    stack.append(r.relational_db.as_str());
    stack.append(" · ");
    stack.append(r.api_layer.as_str());
    let rows = vec![
        ("project", owned(r.project_name.as_str())),
        ("slug", owned(r.project_slug.as_str())),
        ("stack", stack),
        ("frontend", owned(r.frontend.as_str())),
    ];
    assert(rows@.map_values(|row: (&'static str, String)| (row.0@, row.1@)) =~= summary_of(*r));
    rows
}

/// The add-ons line of the summary: each label with whether it is on.
pub open spec fn addons_of(r: Recipe) -> Seq<(Seq<char>, bool)> {
    seq![
        ("celery "@, r.use_celery),
        ("sentry "@, r.use_sentry),
        ("obs "@, r.use_observability),
        ("precommit "@, r.use_pre_commit),
        ("mailpit"@, r.use_mailpit),
    ]
}

/// The add-ons line of the summary: Celery, Sentry, observability, pre-commit and Mailpit,
/// each with whether the recipe turns it on.
pub fn addon_flags(r: &Recipe) -> (res: Vec<(&'static str, bool)>)
    ensures
        res@.map_values(|a: (&'static str, bool)| (a.0@, a.1)) == addons_of(*r),
{
    let flags = vec![
        ("celery ", r.use_celery),
        ("sentry ", r.use_sentry),
        ("obs ", r.use_observability),
        ("precommit ", r.use_pre_commit),
        ("mailpit", r.use_mailpit),
    ];
    assert(flags@.map_values(|a: (&'static str, bool)| (a.0@, a.1)) =~= addons_of(*r));
    flags
}

/// The commands that start a freshly generated project without containers: migrations
/// first (the custom user model ships without one), then the server.
pub open spec fn bare_start(multi_tenant: bool) -> Seq<Seq<char>> {
    if multi_tenant {
        seq![
            "uv run python manage.py makemigrations users tenants"@,
            "uv run python manage.py migrate_schemas --shared"@,
            "uv run python manage.py bootstrap_public_tenant"@,
            "uv run python manage.py runserver"@,
        ]
    } else {
        seq![
            "uv run python manage.py makemigrations users"@,
            "uv run python manage.py migrate"@,
            "uv run python manage.py createsuperuser"@,
            "uv run python manage.py runserver"@,
        ]
    }
}

/// The next steps shown after a project is generated: enter it, install (with the
/// pre-commit hooks when chosen), then start it with Docker Compose or by hand.
pub open spec fn next_steps_of(r: Recipe) -> Seq<Seq<char>> {
    let install = if r.use_pre_commit {
        "uv sync && uv run pre-commit install"@
    } else {
        "uv sync"@
    };
    let start = match r.container_setup {
        ContainerSetup::Nothing => bare_start(r.multi_tenant),
        _ => seq!["docker compose -f compose.local.yml up --build"@],
    };
    seq!["cd "@ + r.project_slug@, install] + start
}

/// The next steps shown after a project is generated, one command per line.
pub fn next_steps(r: &Recipe) -> (res: Vec<String>)
    ensures
        string_views(res@) == next_steps_of(*r),
{
    let mut steps: Vec<String> = Vec::new();
    steps.push(concat("cd ", r.project_slug.as_str()));
    if r.use_pre_commit {
        steps.push(owned("uv sync && uv run pre-commit install"));
    } else {
        steps.push(owned("uv sync"));
    }
    match r.container_setup {
        ContainerSetup::ComposeTraefik | ContainerSetup::ComposeOnly => {
            steps.push(owned("docker compose -f compose.local.yml up --build"));
        },
        ContainerSetup::Nothing => {
            if r.multi_tenant {
                steps.push(owned("uv run python manage.py makemigrations users tenants"));
                steps.push(owned("uv run python manage.py migrate_schemas --shared"));
                steps.push(owned("uv run python manage.py bootstrap_public_tenant"));
            } else {
                steps.push(owned("uv run python manage.py makemigrations users"));
                steps.push(owned("uv run python manage.py migrate"));
                steps.push(owned("uv run python manage.py createsuperuser"));
            }
            steps.push(owned("uv run python manage.py runserver"));
        },
    }
    assert(string_views(steps@) =~= next_steps_of(*r));
    steps
}

/// Where a stage of the questionnaire stands relative to the current one.
#[derive(Debug, Clone, Copy, PartialEq, Eq, Structural)]
pub enum StageMark {
    Done,
    Current,
    Upcoming,
}

/// The stages of the questionnaire, in order.
pub open spec fn stage_labels() -> Seq<Seq<char>> {
    seq!["Project basics"@, "Stack"@, "Production add-ons"@]
}

/// The mark of stage `step` (counted from 1) while stage `current` is under way.
pub open spec fn mark_of(step: int, current: int) -> StageMark {
    if step == current {
        StageMark::Current
    } else if step < current {
        StageMark::Done
    } else {
        StageMark::Upcoming
    }
}

/// The stepper rail shown above each stage: every stage's label with its mark.
pub fn stage_rail(current: usize) -> (res: Vec<(&'static str, StageMark)>)
    ensures
        res@.len() == 3,
        forall|i: int|
            0 <= i < 3 ==> (#[trigger] res@[i]).0@ == stage_labels()[i] && res@[i].1 == mark_of(
                i + 1,
                current as int,
            ),
{
    let labels: [&'static str; 3] = ["Project basics", "Stack", "Production add-ons"];
    let mut rail: Vec<(&'static str, StageMark)> = Vec::new();
    let mut i: usize = 0;
    while i < 3
        invariant
            i <= 3,
            rail@.len() == i,
            labels@ == seq!["Project basics", "Stack", "Production add-ons"],
            forall|j: int|
                0 <= j < i ==> (#[trigger] rail@[j]).0@ == stage_labels()[j] && rail@[j].1
                    == mark_of(j + 1, current as int),
        decreases 3 - i,
    {
        let step = i + 1;
        let mark = if step == current {
            StageMark::Current
        } else if step < current {
            StageMark::Done
        } else {
            StageMark::Upcoming
        };
        rail.push((labels[i], mark));
        i = i + 1;
    }
    rail
}

} // verus!
