//! The interactive questionnaire as a state machine: which question comes next, with
//! what default and which validation rule, which questions a recipe skips (and the value
//! a skipped question leaves), and how an answer updates the recipe. The front end shows
//! the prompts and hands the answers back.

use vstd::prelude::*;
use vstd::utf8::encode_utf8;

use crate::choices::{
    api_choices, api_options, broker_choices, broker_options, ci_choices, ci_options,
    container_choices, container_options, css_choices, css_options, db_choices, db_options,
    django_choices, django_options, frontend_choices, frontend_options, graph_choices,
    graph_options, js_language_choices, js_language_options, labels_of, labels_view,
    lemma_start_index,
    license_choices, license_options, mode_choices, mode_options, prod_email_choices,
    prod_email_options, py_choices, py_options, radix_choices, radix_options, shown, start_in,
    start_index, storage_choices, storage_options, table_view, typecheck_choices,
    typecheck_options, values_of, variant_choices, variant_options, vcs_choices, vcs_options,
};
use crate::context::{
    is_lower_secret, is_spa, is_url_safe_secret, lower_secret, secret_key, spa_frontend,
};
use crate::filters::{heck_snake, to_snake};
use crate::options::{
    ApiLayer, CeleryBroker, CiProvider, ContainerSetup, CssFramework, DjangoVersion, Frontend,
    FrontendVariant, GraphDb, JsLanguage, License, Mode, ProdEmail, PythonVersion, RadixFlavor,
    RelationalDb, Storage, TypeChecker, VersionControl,
};
use crate::recipe::{check_slug, is_valid_slug, Recipe};
use crate::render::{blank, is_blank};
use crate::text::{chars_of, contains_char, owned};

verus! {

/// The number of questions.
pub const QUESTION_COUNT: usize = 43;

/// A heading shown before a question: a stage of the questionnaire (1 to 3), or the
/// credentials notice.
#[derive(Debug, Clone, Copy, PartialEq, Eq, Structural)]
pub enum Banner {
    Stage(u8),
    Credentials,
}

/// How a free-text answer is checked.
#[derive(Debug, Clone, Copy, PartialEq, Eq, Structural)]
pub enum TextRule {
    /// Anything goes.
    Any,
    /// Must not be blank.
    Required,
    /// A valid project slug.
    Slug,
    /// Must contain `@` and be longer than three bytes.
    Email,
}

/// What kind of answer a question takes.
#[derive(Debug, Clone, Copy, PartialEq, Eq, Structural)]
pub enum QuestionKind {
    Text(TextRule),
    Confirm,
    Select,
}

/// One question as the front end shows it.
#[derive(Debug, Clone)]
pub enum Prompt {
    Text { message: &'static str, default: String, help: &'static str, rule: TextRule },
    Confirm { message: &'static str, default: bool, help: &'static str },
    /// Choices as (label, hint); the cursor starts on `start`.
    Select { message: &'static str, labels: Vec<(&'static str, &'static str)>, start: usize },
}

/// What the questionnaire wants next.
#[derive(Debug, Clone)]
pub enum Turn {
    /// Show the banner (if any), ask the prompt, hand the answer to [`Wizard::answer`].
    Ask { banner: Option<Banner>, prompt: Prompt },
    /// The recipe skips this question: show the banner (if any), call [`Wizard::skip`].
    Skip { banner: Option<Banner> },
    /// All questions are done: take the recipe with [`Wizard::finish`].
    Finished,
}

/// An answer to a prompt.
#[derive(Debug, Clone)]
pub enum Answer {
    Text(String),
    Confirm(bool),
    Choice(usize),
}

/// The rejection message of a text rule, if the answer breaks it.
pub open spec fn rule_error(rule: TextRule, s: Seq<char>) -> Option<Seq<char>> {
    match rule {
        TextRule::Any => None,
        TextRule::Required => if is_blank(s) {
            Some("required"@)
        } else {
            None
        },
        TextRule::Slug => if is_valid_slug(s) {
            None
        } else {
            Some("invalid slug"@)
        },
        TextRule::Email => if s.contains('@') && encode_utf8(s).len() > 3 {
            None
        } else {
            Some("must contain '@'"@)
        },
    }
}

/// Checks a free-text answer against its rule; the message when it is rejected.
pub fn check_text(rule: TextRule, s: &str) -> (res: Option<&'static str>)
    ensures
        match res {
            Some(m) => rule_error(rule, s@) == Some(m@),
            None => rule_error(rule, s@) is None,
        },
{
    match rule {
        TextRule::Any => None,
        TextRule::Required => if blank(s) {
            Some("required")
        } else {
            None
        },
        TextRule::Slug => if check_slug(s).is_none() {
            None
        } else {
            Some("invalid slug")
        },
        TextRule::Email => if contains_char(s, '@') && s.as_bytes().len() > 3 {
            None
        } else {
            Some("must contain '@'")
        },
    }
}

/// The kind of question `k` (for `k` below [`QUESTION_COUNT`]).
pub open spec fn kind_of(k: int) -> QuestionKind {
    if k == 0 {
        QuestionKind::Text(TextRule::Required)
    } else if k == 1 {
        QuestionKind::Text(TextRule::Slug)
    } else if k == 4 {
        QuestionKind::Text(TextRule::Email)
    } else if k == 2 || k == 3 || k == 5 || 34 <= k {
        QuestionKind::Text(TextRule::Any)
    } else if k == 7 || k == 18 || k == 20 || k == 22 || k == 25 || k == 26 || k == 27 || k == 28 || k == 30 {
        QuestionKind::Confirm
    } else {
        QuestionKind::Select
    }
}

fn question_kind(k: usize) -> (res: QuestionKind)
    ensures
        res == kind_of(k as int),
{
    if k == 0 {
        QuestionKind::Text(TextRule::Required)
    } else if k == 1 {
        QuestionKind::Text(TextRule::Slug)
    } else if k == 4 {
        QuestionKind::Text(TextRule::Email)
    } else if k == 2 || k == 3 || k == 5 || 34 <= k {
        QuestionKind::Text(TextRule::Any)
    } else if k == 7 || k == 18 || k == 20 || k == 22 || k == 25 || k == 26 || k == 27 || k == 28 || k == 30 {
        QuestionKind::Confirm
    } else {
        QuestionKind::Select
    }
}

/// The message of question `k`.
pub open spec fn message_of(k: int) -> Seq<char> {
    if k == 0 {
        "Project name"@
    } else if k == 1 {
        "Project slug"@
    } else if k == 2 {
        "Short description"@
    } else if k == 3 {
        "Author name"@
    } else if k == 4 {
        "Author email"@
    } else if k == 5 {
        "Primary domain (for prod settings + Traefik)"@
    } else if k == 6 {
        "License"@
    } else if k == 7 {
        "Is this an open-source project?"@
    } else if k == 8 {
        "Python version"@
    } else if k == 9 {
        "Django version"@
    } else if k == 10 {
        "Primary mode"@
    } else if k == 11 {
        "Primary relational database"@
    } else if k == 12 {
        "Graph database add-on"@
    } else if k == 13 {
        "API layer"@
    } else if k == 14 {
        "Frontend"@
    } else if k == 15 {
        "Frontend variant"@
    } else if k == 16 {
        "Radix flavor"@
    } else if k == 17 {
        "Language"@
    } else if k == 18 {
        "Wire up Vitest 8 + Playwright?"@
    } else if k == 19 {
        "CSS framework (server-rendered templates)"@
    } else if k == 20 {
        "Add Celery (+ Beat + Flower)?"@
    } else if k == 21 {
        "Celery broker"@
    } else if k == 22 {
        "Add Mailpit for local email testing?"@
    } else if k == 23 {
        "Production email backend"@
    } else if k == 24 {
        "Cloud storage backend"@
    } else if k == 25 {
        "Add Sentry?"@
    } else if k == 26 {
        "Add structlog + OpenTelemetry?"@
    } else if k == 27 {
        "Add django-waffle feature flags?"@
    } else if k == 28 {
        "Multi-tenant via django-tenants (PG-schema-per-tenant)?"@
    } else if k == 29 {
        "Type checker"@
    } else if k == 30 {
        "Add pre-commit hooks (ruff, djlint, mypy, gitleaks)?"@
    } else if k == 31 {
        "CI provider"@
    } else if k == 32 {
        "Container setup"@
    } else if k == 33 {
        "Version control"@
    } else if k == 34 {
        "Timezone (IANA)"@
    } else if k == 35 {
        "Database password"@
    } else if k == 36 {
        "Initial admin (superuser) email"@
    } else if k == 37 {
        "Initial admin (superuser) password"@
    } else if k == 38 {
        "Flower dashboard username"@
    } else if k == 39 {
        "Flower dashboard password"@
    } else if k == 40 {
        "Redis password"@
    } else if k == 41 {
        "Allowed hosts (comma-separated)"@
    } else {
        "Admin URL suffix (obscures /admin/ from scanners)"@
    }
}

fn message(k: usize) -> (res: &'static str)
    ensures
        res@ == message_of(k as int),
{
    if k == 0 {
        "Project name"
    } else if k == 1 {
        "Project slug"
    } else if k == 2 {
        "Short description"
    } else if k == 3 {
        "Author name"
    } else if k == 4 {
        "Author email"
    } else if k == 5 {
        "Primary domain (for prod settings + Traefik)"
    } else if k == 6 {
        "License"
    } else if k == 7 {
        "Is this an open-source project?"
    } else if k == 8 {
        "Python version"
    } else if k == 9 {
        "Django version"
    } else if k == 10 {
        "Primary mode"
    } else if k == 11 {
        "Primary relational database"
    } else if k == 12 {
        "Graph database add-on"
    } else if k == 13 {
        "API layer"
    } else if k == 14 {
        "Frontend"
    } else if k == 15 {
        "Frontend variant"
    } else if k == 16 {
        "Radix flavor"
    } else if k == 17 {
        "Language"
    } else if k == 18 {
        "Wire up Vitest 8 + Playwright?"
    } else if k == 19 {
        "CSS framework (server-rendered templates)"
    } else if k == 20 {
        "Add Celery (+ Beat + Flower)?"
    } else if k == 21 {
        "Celery broker"
    } else if k == 22 {
        "Add Mailpit for local email testing?"
    } else if k == 23 {
        "Production email backend"
    } else if k == 24 {
        "Cloud storage backend"
    } else if k == 25 {
        "Add Sentry?"
    } else if k == 26 {
        "Add structlog + OpenTelemetry?"
    } else if k == 27 {
        "Add django-waffle feature flags?"
    } else if k == 28 {
        "Multi-tenant via django-tenants (PG-schema-per-tenant)?"
    } else if k == 29 {
        "Type checker"
    } else if k == 30 {
        "Add pre-commit hooks (ruff, djlint, mypy, gitleaks)?"
    } else if k == 31 {
        "CI provider"
    } else if k == 32 {
        "Container setup"
    } else if k == 33 {
        "Version control"
    } else if k == 34 {
        "Timezone (IANA)"
    } else if k == 35 {
        "Database password"
    } else if k == 36 {
        "Initial admin (superuser) email"
    } else if k == 37 {
        "Initial admin (superuser) password"
    } else if k == 38 {
        "Flower dashboard username"
    } else if k == 39 {
        "Flower dashboard password"
    } else if k == 40 {
        "Redis password"
    } else if k == 41 {
        "Allowed hosts (comma-separated)"
    } else {
        "Admin URL suffix (obscures /admin/ from scanners)"
    }
}

/// The help line of question `k` (empty when it has none).
pub open spec fn help_of(k: int) -> Seq<char> {
    if k == 0 {
        "Human-friendly title, e.g. 'My Awesome App'"@
    } else if k == 1 {
        "Python package name; ASCII letters, digits, underscore; starts with letter or _"@
    } else if k == 28 {
        "Adds an `apps/tenants/` app with Tenant + Domain models, a `create_tenant` management command, and splits INSTALLED_APPS into SHARED_APPS + TENANT_APPS."@
    } else if k == 35 {
        "Reused by the database container and DATABASE_URL."@
    } else if k == 37 {
        "Seeded idempotently on first boot via `manage.py seed_superuser`."@
    } else {
        ""@
    }
}

fn help(k: usize) -> (res: &'static str)
    ensures
        res@ == help_of(k as int),
{
    if k == 0 {
        "Human-friendly title, e.g. 'My Awesome App'"
    } else if k == 1 {
        "Python package name; ASCII letters, digits, underscore; starts with letter or _"
    } else if k == 28 {
        "Adds an `apps/tenants/` app with Tenant + Domain models, a `create_tenant` management command, and splits INSTALLED_APPS into SHARED_APPS + TENANT_APPS."
    } else if k == 35 {
        "Reused by the database container and DATABASE_URL."
    } else if k == 37 {
        "Seeded idempotently on first boot via `manage.py seed_superuser`."
    } else {
        ""
    }
}

/// Whether the recipe so far asks question `k` (the others are skipped).
pub open spec fn asked(r: Recipe, k: int) -> bool {
    if k == 15 {
        is_spa(r.frontend)
    } else if k == 16 {
        r.frontend == Frontend::React && r.frontend_variant == FrontendVariant::Full
    } else if k == 17 {
        is_spa(r.frontend)
    } else if k == 18 {
        is_spa(r.frontend) && r.frontend_variant == FrontendVariant::Full
    } else if k == 21 {
        r.use_celery
    } else if k == 28 {
        r.relational_db == RelationalDb::Postgres
    } else if k == 35 {
        r.relational_db != RelationalDb::Sqlite
    } else if k == 38 {
        r.use_celery
    } else if k == 39 {
        r.use_celery
    } else if k == 40 {
        r.use_celery && r.celery_broker == CeleryBroker::Redis
    } else {
        0 <= k < QUESTION_COUNT
    }
}

/// The banner shown before question `k`.
pub open spec fn banner_at(k: int) -> Option<Banner> {
    if k == 0 {
        Some(Banner::Stage(1))
    } else if k == 8 {
        Some(Banner::Stage(2))
    } else if k == 20 {
        Some(Banner::Stage(3))
    } else if k == 35 {
        Some(Banner::Credentials)
    } else {
        None
    }
}

/// `n` equals `o` in every field but the one question `k` sets.
pub open spec fn same_but(o: Recipe, n: Recipe, k: int) -> bool {
    &&& (k != 0 ==> n.project_name@ == o.project_name@)
    &&& (k != 1 ==> n.project_slug@ == o.project_slug@)
    &&& (k != 2 ==> n.description@ == o.description@)
    &&& (k != 3 ==> n.author_name@ == o.author_name@)
    &&& (k != 4 ==> n.author_email@ == o.author_email@)
    &&& (k != 5 ==> n.domain_name@ == o.domain_name@)
    &&& (k != 6 ==> n.license == o.license)
    &&& (k != 7 ==> n.open_source == o.open_source)
    &&& (k != 8 ==> n.python_version == o.python_version)
    &&& (k != 9 ==> n.django_version == o.django_version)
    &&& (k != 10 ==> n.mode == o.mode)
    &&& (k != 11 ==> n.relational_db == o.relational_db)
    &&& (k != 12 ==> n.graph_db == o.graph_db)
    &&& (k != 13 ==> n.api_layer == o.api_layer)
    &&& (k != 14 ==> n.frontend == o.frontend)
    &&& (k != 15 ==> n.frontend_variant == o.frontend_variant)
    &&& (k != 16 ==> n.radix_flavor == o.radix_flavor)
    &&& (k != 17 ==> n.js_language == o.js_language)
    &&& (k != 18 ==> n.js_testing == o.js_testing)
    &&& (k != 19 ==> n.css_framework == o.css_framework)
    &&& (k != 20 ==> n.use_celery == o.use_celery)
    &&& (k != 21 ==> n.celery_broker == o.celery_broker)
    &&& (k != 22 ==> n.use_mailpit == o.use_mailpit)
    &&& (k != 23 ==> n.prod_email == o.prod_email)
    &&& (k != 24 ==> n.storage == o.storage)
    &&& (k != 25 ==> n.use_sentry == o.use_sentry)
    &&& (k != 26 ==> n.use_observability == o.use_observability)
    &&& (k != 27 ==> n.use_feature_flags == o.use_feature_flags)
    &&& (k != 28 ==> n.multi_tenant == o.multi_tenant)
    &&& (k != 29 ==> n.type_checker == o.type_checker)
    &&& (k != 30 ==> n.use_pre_commit == o.use_pre_commit)
    &&& (k != 31 ==> n.ci == o.ci)
    &&& (k != 32 ==> n.container_setup == o.container_setup)
    &&& (k != 33 ==> n.version_control == o.version_control)
    &&& (k != 34 ==> n.timezone@ == o.timezone@)
    &&& (k != 35 ==> n.db_password@ == o.db_password@)
    &&& (k != 36 ==> n.superuser_email@ == o.superuser_email@)
    &&& (k != 37 ==> n.superuser_password@ == o.superuser_password@)
    &&& (k != 38 ==> n.flower_user@ == o.flower_user@)
    &&& (k != 39 ==> n.flower_password@ == o.flower_password@)
    &&& (k != 40 ==> n.redis_password@ == o.redis_password@)
    &&& (k != 41 ==> n.allowed_hosts@ == o.allowed_hosts@)
    &&& (k != 42 ==> n.admin_url_suffix@ == o.admin_url_suffix@)
}

/// The value a skipped question `k` leaves in its field.
pub open spec fn skipped_value_ok(o: Recipe, n: Recipe, k: int) -> bool {
    if k == 15 {
        n.frontend_variant == FrontendVariant::Full
    } else if k == 16 {
        n.radix_flavor is None
    } else if k == 17 {
        n.js_language == o.js_language
    } else if k == 18 {
        !n.js_testing
    } else if k == 21 {
        n.celery_broker == o.celery_broker
    } else if k == 28 {
        !n.multi_tenant
    } else if k == 35 {
        n.db_password@.len() == 0
    } else if k == 38 {
        n.flower_user@.len() == 0
    } else if k == 39 {
        n.flower_password@.len() == 0
    } else if k == 40 {
        n.redis_password@.len() == 0
    } else {
        false
    }
}

/// The field that text question `k` fills.
pub open spec fn text_of(r: Recipe, k: int) -> Seq<char> {
    if k == 0 {
        r.project_name@
    } else if k == 1 {
        r.project_slug@
    } else if k == 2 {
        r.description@
    } else if k == 3 {
        r.author_name@
    } else if k == 4 {
        r.author_email@
    } else if k == 5 {
        r.domain_name@
    } else if k == 34 {
        r.timezone@
    } else if k == 35 {
        r.db_password@
    } else if k == 36 {
        r.superuser_email@
    } else if k == 37 {
        r.superuser_password@
    } else if k == 38 {
        r.flower_user@
    } else if k == 39 {
        r.flower_password@
    } else if k == 40 {
        r.redis_password@
    } else if k == 41 {
        r.allowed_hosts@
    } else {
        r.admin_url_suffix@
    }
}

/// The field that yes / no question `k` fills.
pub open spec fn flag_of(r: Recipe, k: int) -> bool {
    if k == 7 {
        r.open_source
    } else if k == 18 {
        r.js_testing
    } else if k == 20 {
        r.use_celery
    } else if k == 22 {
        r.use_mailpit
    } else if k == 25 {
        r.use_sentry
    } else if k == 26 {
        r.use_observability
    } else if k == 27 {
        r.use_feature_flags
    } else if k == 28 {
        r.multi_tenant
    } else {
        r.use_pre_commit
    }
}

/// The number of choices of single-select question `k`.
pub open spec fn choice_count(k: int) -> int {
    if k == 6 {
        license_choices().len() as int
    } else if k == 8 {
        py_choices().len() as int
    } else if k == 9 {
        django_choices().len() as int
    } else if k == 10 {
        mode_choices().len() as int
    } else if k == 11 {
        db_choices().len() as int
    } else if k == 12 {
        graph_choices().len() as int
    } else if k == 13 {
        api_choices().len() as int
    } else if k == 14 {
        frontend_choices().len() as int
    } else if k == 15 {
        variant_choices().len() as int
    } else if k == 16 {
        radix_choices().len() as int
    } else if k == 17 {
        js_language_choices().len() as int
    } else if k == 19 {
        css_choices().len() as int
    } else if k == 21 {
        broker_choices().len() as int
    } else if k == 23 {
        prod_email_choices().len() as int
    } else if k == 24 {
        storage_choices().len() as int
    } else if k == 29 {
        typecheck_choices().len() as int
    } else if k == 31 {
        ci_choices().len() as int
    } else if k == 32 {
        container_choices().len() as int
    } else {
        vcs_choices().len() as int
    }
}

/// The (label, hint) pairs of single-select question `k`.
pub open spec fn choice_labels(k: int) -> Seq<(Seq<char>, Seq<char>)> {
    if k == 6 {
        labels_view(license_choices())
    } else if k == 8 {
        labels_view(py_choices())
    } else if k == 9 {
        labels_view(django_choices())
    } else if k == 10 {
        labels_view(mode_choices())
    } else if k == 11 {
        labels_view(db_choices())
    } else if k == 12 {
        labels_view(graph_choices())
    } else if k == 13 {
        labels_view(api_choices())
    } else if k == 14 {
        labels_view(frontend_choices())
    } else if k == 15 {
        labels_view(variant_choices())
    } else if k == 16 {
        labels_view(radix_choices())
    } else if k == 17 {
        labels_view(js_language_choices())
    } else if k == 19 {
        labels_view(css_choices())
    } else if k == 21 {
        labels_view(broker_choices())
    } else if k == 23 {
        labels_view(prod_email_choices())
    } else if k == 24 {
        labels_view(storage_choices())
    } else if k == 29 {
        labels_view(typecheck_choices())
    } else if k == 31 {
        labels_view(ci_choices())
    } else if k == 32 {
        labels_view(container_choices())
    } else {
        labels_view(vcs_choices())
    }
}

/// Where the cursor of single-select question `k` starts: on the recipe's value (for the
/// Radix flavor, on Themes when it has none).
pub open spec fn start_of(r: Recipe, k: int) -> int {
    if k == 6 {
        start_index(values_of(license_choices()), r.license)
    } else if k == 8 {
        start_index(values_of(py_choices()), r.python_version)
    } else if k == 9 {
        start_index(values_of(django_choices()), r.django_version)
    } else if k == 10 {
        start_index(values_of(mode_choices()), r.mode)
    } else if k == 11 {
        start_index(values_of(db_choices()), r.relational_db)
    } else if k == 12 {
        start_index(values_of(graph_choices()), r.graph_db)
    } else if k == 13 {
        start_index(values_of(api_choices()), r.api_layer)
    } else if k == 14 {
        start_index(values_of(frontend_choices()), r.frontend)
    } else if k == 15 {
        start_index(values_of(variant_choices()), r.frontend_variant)
    } else if k == 16 {
        start_index(values_of(radix_choices()), match r.radix_flavor { Some(x) => x, None => RadixFlavor::Themes })
    } else if k == 17 {
        start_index(values_of(js_language_choices()), r.js_language)
    } else if k == 19 {
        start_index(values_of(css_choices()), r.css_framework)
    } else if k == 21 {
        start_index(values_of(broker_choices()), r.celery_broker)
    } else if k == 23 {
        start_index(values_of(prod_email_choices()), r.prod_email)
    } else if k == 24 {
        start_index(values_of(storage_choices()), r.storage)
    } else if k == 29 {
        start_index(values_of(typecheck_choices()), r.type_checker)
    } else if k == 31 {
        start_index(values_of(ci_choices()), r.ci)
    } else if k == 32 {
        start_index(values_of(container_choices()), r.container_setup)
    } else {
        start_index(values_of(vcs_choices()), r.version_control)
    }
}

/// Whether choice `c` of single-select question `k` is the value of its field in `n`.
pub open spec fn choice_applied(n: Recipe, k: int, c: int) -> bool {
    if k == 6 {
        n.license == license_choices()[c].0
    } else if k == 8 {
        n.python_version == py_choices()[c].0
    } else if k == 9 {
        n.django_version == django_choices()[c].0
    } else if k == 10 {
        n.mode == mode_choices()[c].0
    } else if k == 11 {
        n.relational_db == db_choices()[c].0
    } else if k == 12 {
        n.graph_db == graph_choices()[c].0
    } else if k == 13 {
        n.api_layer == api_choices()[c].0
    } else if k == 14 {
        n.frontend == frontend_choices()[c].0
    } else if k == 15 {
        n.frontend_variant == variant_choices()[c].0
    } else if k == 16 {
        n.radix_flavor == Some(radix_choices()[c].0)
    } else if k == 17 {
        n.js_language == js_language_choices()[c].0
    } else if k == 19 {
        n.css_framework == css_choices()[c].0
    } else if k == 21 {
        n.celery_broker == broker_choices()[c].0
    } else if k == 23 {
        n.prod_email == prod_email_choices()[c].0
    } else if k == 24 {
        n.storage == storage_choices()[c].0
    } else if k == 29 {
        n.type_checker == typecheck_choices()[c].0
    } else if k == 31 {
        n.ci == ci_choices()[c].0
    } else if k == 32 {
        n.container_setup == container_choices()[c].0
    } else {
        n.version_control == vcs_choices()[c].0
    }
}

/// Whether the default of text question `k` is `d` for the recipe so far: the recipe's
/// value, the slug of the project name, the author's e-mail (or a placeholder), a fixed
/// name, or a fresh secret.
pub open spec fn text_default_ok(r: Recipe, k: int, d: Seq<char>) -> bool {
    if k == 1 {
        d == heck_snake(r.project_name@)
    } else if k == 35 {
        is_url_safe_secret(d, 40)
    } else if k == 36 {
        d == (if r.author_email@.len() == 0 { "admin@example.com"@ } else { r.author_email@ })
    } else if k == 37 {
        is_url_safe_secret(d, 32)
    } else if k == 38 {
        d == "flower"@
    } else if k == 39 {
        is_url_safe_secret(d, 24)
    } else if k == 40 {
        is_url_safe_secret(d, 32)
    } else if k == 42 {
        is_lower_secret(d, 16)
    } else {
        d == text_of(r, k)
    }
}

/// Whether answer `a` to question `k` was applied to field `k` of `n`.
pub open spec fn answer_applied(n: Recipe, k: int, a: Answer) -> bool {
    match kind_of(k) {
        QuestionKind::Text(_) => a matches Answer::Text(s) && text_of(n, k) == s@,
        QuestionKind::Confirm => a matches Answer::Confirm(b) && flag_of(n, k) == b,
        QuestionKind::Select => a matches Answer::Choice(c) && c < choice_count(k)
            && choice_applied(n, k, c as int),
    }
}

/// Whether answer `a` fits question `k`: the right kind, a choice in range, the text rule
/// kept.
pub open spec fn answer_fits(k: int, a: Answer) -> bool {
    match kind_of(k) {
        QuestionKind::Text(rule) => a matches Answer::Text(s) && rule_error(rule, s@) is None,
        QuestionKind::Confirm => a is Confirm,
        QuestionKind::Select => a matches Answer::Choice(c) && c < choice_count(k),
    }
}

/// Whether `p` is question `k` as the recipe so far asks it.
pub open spec fn prompt_ok(r: Recipe, k: int, p: Prompt) -> bool {
    match kind_of(k) {
        QuestionKind::Text(rule) => p matches Prompt::Text { message, default, help, rule: u }
            && message@ == message_of(k) && help@ == help_of(k) && u == rule
            && text_default_ok(r, k, default@),
        QuestionKind::Confirm => p matches Prompt::Confirm { message, default, help }
            && message@ == message_of(k) && help@ == help_of(k) && default == flag_of(r, k),
        QuestionKind::Select => p matches Prompt::Select { message, labels, start }
            && message@ == message_of(k) && shown(labels@) == choice_labels(k)
            && start == start_of(r, k),
    }
}

/// What the answers so far guarantee: a valid slug once asked, an e-mail with `@` once
/// asked, a Radix flavor for a full React frontend once that is settled, multi-tenancy only
/// on Postgres once that is settled.
pub open spec fn consistent_upto(r: Recipe, k: int) -> bool {
    &&& k > 1 ==> is_valid_slug(r.project_slug@)
    &&& k > 4 ==> r.author_email@.contains('@')
    &&& k > 16 ==> (r.frontend == Frontend::React && r.frontend_variant == FrontendVariant::Full
        ==> r.radix_flavor is Some)
    &&& k > 28 ==> (r.multi_tenant ==> r.relational_db == RelationalDb::Postgres)
}

/// The answer that accepts a prompt's default.
pub open spec fn default_answer(p: Prompt) -> Answer {
    match p {
        Prompt::Text { default, .. } => Answer::Text(default),
        Prompt::Confirm { default, .. } => Answer::Confirm(default),
        Prompt::Select { start, .. } => Answer::Choice(start),
    }
}

/// Whether question `k` offers the recipe's own value as its default: every question but
/// the slug (derived from the name), the admin e-mail (the author's), the Flower user name
/// and the generated secrets.
pub open spec fn offers_own_value(k: int) -> bool {
    !(k == 1 || (35 <= k && k <= 40) || k == 42)
}

/// Accepting the default of a question that offers the recipe's own value leaves the recipe
/// as it was: a preset's answers are the defaults, and taking them keeps the preset. (A
/// full React frontend without a Radix flavor is the exception: its default is Themes.)
pub proof fn law_default_answer_keeps_preset(r: Recipe, k: int, p: Prompt, n: Recipe)
    requires
        0 <= k < QUESTION_COUNT,
        offers_own_value(k),
        k == 16 ==> r.radix_flavor is Some,
        prompt_ok(r, k, p),
        answer_applied(n, k, default_answer(p)),
        same_but(r, n, k),
    ensures
        same_but(r, n, -1),
{
    if kind_of(k) is Select {
        assert(choice_applied(n, k, start_of(r, k)));
        if k <= 17 {
            lemma_default_choice_kept_early(r, k, n);
        } else {
            lemma_default_choice_kept_late(r, k, n);
        }
    }
}

#[verifier::rlimit(40)]
proof fn lemma_default_choice_kept_early(r: Recipe, k: int, n: Recipe)
    requires
        0 <= k < QUESTION_COUNT,
        kind_of(k) is Select,
        k <= 17,
        k == 16 ==> r.radix_flavor is Some,
        choice_applied(n, k, start_of(r, k)),
        same_but(r, n, k),
    ensures
        same_but(r, n, -1),
{
    if k == 6 {
        match r.license {
            License::Mit => lemma_start_index(values_of(license_choices()), 0, License::Mit),
            License::Apache2 => lemma_start_index(values_of(license_choices()), 1, License::Apache2),
            License::Bsd3 => lemma_start_index(values_of(license_choices()), 2, License::Bsd3),
            License::Proprietary => lemma_start_index(values_of(license_choices()), 3, License::Proprietary),
        }
    } else if k == 8 {
        match r.python_version {
            PythonVersion::Py314 => lemma_start_index(values_of(py_choices()), 0, PythonVersion::Py314),
            PythonVersion::Py313 => lemma_start_index(values_of(py_choices()), 1, PythonVersion::Py313),
        }
    } else if k == 9 {
        match r.django_version {
            DjangoVersion::Dj60 => lemma_start_index(values_of(django_choices()), 0, DjangoVersion::Dj60),
        }
    } else if k == 10 {
        match r.mode {
            Mode::Production => lemma_start_index(values_of(mode_choices()), 0, Mode::Production),
            Mode::Development => lemma_start_index(values_of(mode_choices()), 1, Mode::Development),
        }
    } else if k == 11 {
        match r.relational_db {
            RelationalDb::Postgres => lemma_start_index(values_of(db_choices()), 0, RelationalDb::Postgres),
            RelationalDb::Sqlite => lemma_start_index(values_of(db_choices()), 1, RelationalDb::Sqlite),
            RelationalDb::Mysql => lemma_start_index(values_of(db_choices()), 2, RelationalDb::Mysql),
            RelationalDb::Mariadb => lemma_start_index(values_of(db_choices()), 3, RelationalDb::Mariadb),
        }
    } else if k == 12 {
        match r.graph_db {
            GraphDb::Nothing => lemma_start_index(values_of(graph_choices()), 0, GraphDb::Nothing),
            GraphDb::Neo4j => lemma_start_index(values_of(graph_choices()), 1, GraphDb::Neo4j),
            GraphDb::Nebula => lemma_start_index(values_of(graph_choices()), 2, GraphDb::Nebula),
            GraphDb::Surreal => lemma_start_index(values_of(graph_choices()), 3, GraphDb::Surreal),
            GraphDb::Dgraph => lemma_start_index(values_of(graph_choices()), 4, GraphDb::Dgraph),
        }
    } else if k == 13 {
        match r.api_layer {
            ApiLayer::Ninja => lemma_start_index(values_of(api_choices()), 0, ApiLayer::Ninja),
            ApiLayer::Drf => lemma_start_index(values_of(api_choices()), 1, ApiLayer::Drf),
            ApiLayer::GraphqlStrawberry => lemma_start_index(values_of(api_choices()), 2, ApiLayer::GraphqlStrawberry),
            ApiLayer::GraphqlGraphene => lemma_start_index(values_of(api_choices()), 3, ApiLayer::GraphqlGraphene),
            ApiLayer::Nothing => lemma_start_index(values_of(api_choices()), 4, ApiLayer::Nothing),
        }
    } else if k == 14 {
        match r.frontend {
            Frontend::HtmxAlpine => lemma_start_index(values_of(frontend_choices()), 0, Frontend::HtmxAlpine),
            Frontend::React => lemma_start_index(values_of(frontend_choices()), 1, Frontend::React),
            Frontend::Nuxt => lemma_start_index(values_of(frontend_choices()), 2, Frontend::Nuxt),
            Frontend::Vue => lemma_start_index(values_of(frontend_choices()), 3, Frontend::Vue),
            Frontend::Next => lemma_start_index(values_of(frontend_choices()), 4, Frontend::Next),
            Frontend::DjangoTemplates => lemma_start_index(values_of(frontend_choices()), 5, Frontend::DjangoTemplates),
            Frontend::Nothing => lemma_start_index(values_of(frontend_choices()), 6, Frontend::Nothing),
        }
    } else if k == 15 {
        match r.frontend_variant {
            FrontendVariant::Full => lemma_start_index(values_of(variant_choices()), 0, FrontendVariant::Full),
            FrontendVariant::Skeleton => lemma_start_index(values_of(variant_choices()), 1, FrontendVariant::Skeleton),
        }
    } else if k == 16 {
        match r.radix_flavor {
            Some(RadixFlavor::Themes) => lemma_start_index(values_of(radix_choices()), 0, RadixFlavor::Themes),
            Some(RadixFlavor::Primitives) => lemma_start_index(values_of(radix_choices()), 1, RadixFlavor::Primitives),
            None => {},
        }
    } else {
        match r.js_language {
            JsLanguage::Typescript => lemma_start_index(values_of(js_language_choices()), 0, JsLanguage::Typescript),
            JsLanguage::Javascript => lemma_start_index(values_of(js_language_choices()), 1, JsLanguage::Javascript),
        }
    }
}

#[verifier::rlimit(40)]
proof fn lemma_default_choice_kept_late(r: Recipe, k: int, n: Recipe)
    requires
        0 <= k < QUESTION_COUNT,
        kind_of(k) is Select,
        k > 17,
        k == 16 ==> r.radix_flavor is Some,
        choice_applied(n, k, start_of(r, k)),
        same_but(r, n, k),
    ensures
        same_but(r, n, -1),
{
    if k == 19 {
        match r.css_framework {
            CssFramework::Tailwind => lemma_start_index(values_of(css_choices()), 0, CssFramework::Tailwind),
            CssFramework::Bootstrap => lemma_start_index(values_of(css_choices()), 1, CssFramework::Bootstrap),
            CssFramework::Nothing => lemma_start_index(values_of(css_choices()), 2, CssFramework::Nothing),
        }
    } else if k == 21 {
        match r.celery_broker {
            CeleryBroker::Redis => lemma_start_index(values_of(broker_choices()), 0, CeleryBroker::Redis),
            CeleryBroker::Rabbitmq => lemma_start_index(values_of(broker_choices()), 1, CeleryBroker::Rabbitmq),
        }
    } else if k == 23 {
        match r.prod_email {
            ProdEmail::AnymailMailgun => lemma_start_index(values_of(prod_email_choices()), 0, ProdEmail::AnymailMailgun),
            ProdEmail::AnymailSes => lemma_start_index(values_of(prod_email_choices()), 1, ProdEmail::AnymailSes),
            ProdEmail::AnymailSendgrid => lemma_start_index(values_of(prod_email_choices()), 2, ProdEmail::AnymailSendgrid),
            ProdEmail::AnymailMailjet => lemma_start_index(values_of(prod_email_choices()), 3, ProdEmail::AnymailMailjet),
            ProdEmail::AnymailMandrill => lemma_start_index(values_of(prod_email_choices()), 4, ProdEmail::AnymailMandrill),
            ProdEmail::AnymailPostmark => lemma_start_index(values_of(prod_email_choices()), 5, ProdEmail::AnymailPostmark),
            ProdEmail::AnymailBrevo => lemma_start_index(values_of(prod_email_choices()), 6, ProdEmail::AnymailBrevo),
            ProdEmail::AnymailSparkpost => lemma_start_index(values_of(prod_email_choices()), 7, ProdEmail::AnymailSparkpost),
            ProdEmail::Smtp => lemma_start_index(values_of(prod_email_choices()), 8, ProdEmail::Smtp),
            ProdEmail::Console => lemma_start_index(values_of(prod_email_choices()), 9, ProdEmail::Console),
        }
    } else if k == 24 {
        match r.storage {
            Storage::AwsS3 => lemma_start_index(values_of(storage_choices()), 0, Storage::AwsS3),
            Storage::Gcs => lemma_start_index(values_of(storage_choices()), 1, Storage::Gcs),
            Storage::AzureBlob => lemma_start_index(values_of(storage_choices()), 2, Storage::AzureBlob),
            Storage::Whitenoise => lemma_start_index(values_of(storage_choices()), 3, Storage::Whitenoise),
            Storage::Nginx => lemma_start_index(values_of(storage_choices()), 4, Storage::Nginx),
            Storage::Nothing => lemma_start_index(values_of(storage_choices()), 5, Storage::Nothing),
        }
    } else if k == 29 {
        match r.type_checker {
            TypeChecker::Mypy => lemma_start_index(values_of(typecheck_choices()), 0, TypeChecker::Mypy),
            TypeChecker::Pyright => lemma_start_index(values_of(typecheck_choices()), 1, TypeChecker::Pyright),
            TypeChecker::Nothing => lemma_start_index(values_of(typecheck_choices()), 2, TypeChecker::Nothing),
        }
    } else if k == 31 {
        match r.ci {
            CiProvider::GitHubActions => lemma_start_index(values_of(ci_choices()), 0, CiProvider::GitHubActions),
            CiProvider::GitLabCi => lemma_start_index(values_of(ci_choices()), 1, CiProvider::GitLabCi),
            CiProvider::Both => lemma_start_index(values_of(ci_choices()), 2, CiProvider::Both),
            CiProvider::Nothing => lemma_start_index(values_of(ci_choices()), 3, CiProvider::Nothing),
        }
    } else if k == 32 {
        match r.container_setup {
            ContainerSetup::ComposeTraefik => lemma_start_index(values_of(container_choices()), 0, ContainerSetup::ComposeTraefik),
            ContainerSetup::ComposeOnly => lemma_start_index(values_of(container_choices()), 1, ContainerSetup::ComposeOnly),
            ContainerSetup::Nothing => lemma_start_index(values_of(container_choices()), 2, ContainerSetup::Nothing),
        }
    } else {
        match r.version_control {
            VersionControl::Git => lemma_start_index(values_of(vcs_choices()), 0, VersionControl::Git),
            VersionControl::Jj => lemma_start_index(values_of(vcs_choices()), 1, VersionControl::Jj),
            VersionControl::Hg => lemma_start_index(values_of(vcs_choices()), 2, VersionControl::Hg),
            VersionControl::Nothing => lemma_start_index(values_of(vcs_choices()), 3, VersionControl::Nothing),
        }
    }
}

fn is_asked(r: &Recipe, k: usize) -> (res: bool)
    requires
        k < QUESTION_COUNT,
    ensures
        res == asked(*r, k as int),
{
    if k == 15 {
        spa_frontend(r.frontend)
    } else if k == 16 {
        r.frontend == Frontend::React && r.frontend_variant == FrontendVariant::Full
    } else if k == 17 {
        spa_frontend(r.frontend)
    } else if k == 18 {
        spa_frontend(r.frontend) && r.frontend_variant == FrontendVariant::Full
    } else if k == 21 {
        r.use_celery
    } else if k == 28 {
        r.relational_db == RelationalDb::Postgres
    } else if k == 35 {
        r.relational_db != RelationalDb::Sqlite
    } else if k == 38 {
        r.use_celery
    } else if k == 39 {
        r.use_celery
    } else if k == 40 {
        r.use_celery && r.celery_broker == CeleryBroker::Redis
    } else {
        true
    }
}

/// Whether the default of text question `k` is a freshly generated secret (the database,
/// superuser, Flower and Redis passwords and the admin URL suffix).
pub open spec fn generates_secret(k: int) -> bool {
    k == 35 || k == 37 || k == 39 || k == 40 || k == 42
}

/// The message when a secret default cannot be generated.
pub open spec fn no_secret_message() -> Seq<char> {
    "the operating system's random number generator failed"@
}

fn text_default(r: &Recipe, k: usize) -> (res: Option<String>)
    requires
        k < QUESTION_COUNT,
        kind_of(k as int) is Text,
    ensures
        res matches Some(d) ==> text_default_ok(*r, k as int, d@),
        !generates_secret(k as int) ==> res is Some,
{
    if k == 0 {
        Some(owned(r.project_name.as_str()))
    } else if k == 1 {
        Some(to_snake(r.project_name.as_str()))
    } else if k == 2 {
        Some(owned(r.description.as_str()))
    } else if k == 3 {
        Some(owned(r.author_name.as_str()))
    } else if k == 4 {
        Some(owned(r.author_email.as_str()))
    } else if k == 5 {
        Some(owned(r.domain_name.as_str()))
    } else if k == 34 {
        Some(owned(r.timezone.as_str()))
    } else if k == 35 {
        secret_key(40)
    } else if k == 36 {
        if chars_of(r.author_email.as_str()).len() == 0 {
            Some(owned("admin@example.com"))
        } else {
            Some(owned(r.author_email.as_str()))
        }
    } else if k == 37 {
        secret_key(32)
    } else if k == 38 {
        Some(owned("flower"))
    } else if k == 39 {
        secret_key(24)
    } else if k == 40 {
        secret_key(32)
    } else if k == 41 {
        Some(owned(r.allowed_hosts.as_str()))
    } else {
        lower_secret(16)
    }
}

fn flag(r: &Recipe, k: usize) -> (res: bool)
    requires
        k < QUESTION_COUNT,
        kind_of(k as int) is Confirm,
    ensures
        res == flag_of(*r, k as int),
{
    if k == 7 {
        r.open_source
    } else if k == 18 {
        r.js_testing
    } else if k == 20 {
        r.use_celery
    } else if k == 22 {
        r.use_mailpit
    } else if k == 25 {
        r.use_sentry
    } else if k == 26 {
        r.use_observability
    } else if k == 27 {
        r.use_feature_flags
    } else if k == 28 {
        r.multi_tenant
    } else {
        r.use_pre_commit
    }
}

fn select_parts(r: &Recipe, k: usize) -> (res: (Vec<(&'static str, &'static str)>, usize))
    requires
        k < QUESTION_COUNT,
        kind_of(k as int) is Select,
    ensures
        shown(res.0@) == choice_labels(k as int),
        res.1 == start_of(*r, k as int),
{
    if k == 6 {
        let t = license_options();
        (labels_of(&t), start_in(&t, r.license))
    } else if k == 8 {
        let t = py_options();
        (labels_of(&t), start_in(&t, r.python_version))
    } else if k == 9 {
        let t = django_options();
        (labels_of(&t), start_in(&t, r.django_version))
    } else if k == 10 {
        let t = mode_options();
        (labels_of(&t), start_in(&t, r.mode))
    } else if k == 11 {
        let t = db_options();
        (labels_of(&t), start_in(&t, r.relational_db))
    } else if k == 12 {
        let t = graph_options();
        (labels_of(&t), start_in(&t, r.graph_db))
    } else if k == 13 {
        let t = api_options();
        (labels_of(&t), start_in(&t, r.api_layer))
    } else if k == 14 {
        let t = frontend_options();
        (labels_of(&t), start_in(&t, r.frontend))
    } else if k == 15 {
        let t = variant_options();
        (labels_of(&t), start_in(&t, r.frontend_variant))
    } else if k == 16 {
        let t = radix_options();
        (labels_of(&t), start_in(&t, match r.radix_flavor { Some(x) => x, None => RadixFlavor::Themes }))
    } else if k == 17 {
        let t = js_language_options();
        (labels_of(&t), start_in(&t, r.js_language))
    } else if k == 19 {
        let t = css_options();
        (labels_of(&t), start_in(&t, r.css_framework))
    } else if k == 21 {
        let t = broker_options();
        (labels_of(&t), start_in(&t, r.celery_broker))
    } else if k == 23 {
        let t = prod_email_options();
        (labels_of(&t), start_in(&t, r.prod_email))
    } else if k == 24 {
        let t = storage_options();
        (labels_of(&t), start_in(&t, r.storage))
    } else if k == 29 {
        let t = typecheck_options();
        (labels_of(&t), start_in(&t, r.type_checker))
    } else if k == 31 {
        let t = ci_options();
        (labels_of(&t), start_in(&t, r.ci))
    } else if k == 32 {
        let t = container_options();
        (labels_of(&t), start_in(&t, r.container_setup))
    } else {
        let t = vcs_options();
        (labels_of(&t), start_in(&t, r.version_control))
    }
}

fn set_text(r: &mut Recipe, k: usize, s: String)
    requires
        k < QUESTION_COUNT,
        kind_of(k as int) is Text,
    ensures
        text_of(*final(r), k as int) == s@,
        same_but(*old(r), *final(r), k as int),
{
    if k == 0 {
        r.project_name = s;
    } else if k == 1 {
        r.project_slug = s;
    } else if k == 2 {
        r.description = s;
    } else if k == 3 {
        r.author_name = s;
    } else if k == 4 {
        r.author_email = s;
    } else if k == 5 {
        r.domain_name = s;
    } else if k == 34 {
        r.timezone = s;
    } else if k == 35 {
        r.db_password = s;
    } else if k == 36 {
        r.superuser_email = s;
    } else if k == 37 {
        r.superuser_password = s;
    } else if k == 38 {
        r.flower_user = s;
    } else if k == 39 {
        r.flower_password = s;
    } else if k == 40 {
        r.redis_password = s;
    } else if k == 41 {
        r.allowed_hosts = s;
    } else {
        r.admin_url_suffix = s;
    }
}

fn set_flag(r: &mut Recipe, k: usize, b: bool)
    requires
        k < QUESTION_COUNT,
        kind_of(k as int) is Confirm,
    ensures
        flag_of(*final(r), k as int) == b,
        same_but(*old(r), *final(r), k as int),
{
    if k == 7 {
        r.open_source = b;
    } else if k == 18 {
        r.js_testing = b;
    } else if k == 20 {
        r.use_celery = b;
    } else if k == 22 {
        r.use_mailpit = b;
    } else if k == 25 {
        r.use_sentry = b;
    } else if k == 26 {
        r.use_observability = b;
    } else if k == 27 {
        r.use_feature_flags = b;
    } else if k == 28 {
        r.multi_tenant = b;
    } else {
        r.use_pre_commit = b;
    }
}

#[verifier::rlimit(40)]
fn set_choice(r: &mut Recipe, k: usize, c: usize) -> (res: bool)
    requires
        k < QUESTION_COUNT,
        kind_of(k as int) is Select,
    ensures
        res == (c < choice_count(k as int)),
        res ==> choice_applied(*final(r), k as int, c as int) && same_but(*old(r), *final(r), k as int),
        !res ==> *final(r) == *old(r),
{
    if k == 6 {
        let t = license_options();
        if c >= t.len() {
            return false;
        }
        assert(table_view(t@)[c as int].0 == t@[c as int].value);
        r.license = t[c].value;
    } else if k == 8 {
        let t = py_options();
        if c >= t.len() {
            return false;
        }
        assert(table_view(t@)[c as int].0 == t@[c as int].value);
        r.python_version = t[c].value;
    } else if k == 9 {
        let t = django_options();
        if c >= t.len() {
            return false;
        }
        assert(table_view(t@)[c as int].0 == t@[c as int].value);
        r.django_version = t[c].value;
    } else if k == 10 {
        let t = mode_options();
        if c >= t.len() {
            return false;
        }
        assert(table_view(t@)[c as int].0 == t@[c as int].value);
        r.mode = t[c].value;
    } else if k == 11 {
        let t = db_options();
        if c >= t.len() {
            return false;
        }
        assert(table_view(t@)[c as int].0 == t@[c as int].value);
        r.relational_db = t[c].value;
    } else if k == 12 {
        let t = graph_options();
        if c >= t.len() {
            return false;
        }
        assert(table_view(t@)[c as int].0 == t@[c as int].value);
        r.graph_db = t[c].value;
    } else if k == 13 {
        let t = api_options();
        if c >= t.len() {
            return false;
        }
        assert(table_view(t@)[c as int].0 == t@[c as int].value);
        r.api_layer = t[c].value;
    } else if k == 14 {
        let t = frontend_options();
        if c >= t.len() {
            return false;
        }
        assert(table_view(t@)[c as int].0 == t@[c as int].value);
        r.frontend = t[c].value;
    } else if k == 15 {
        let t = variant_options();
        if c >= t.len() {
            return false;
        }
        assert(table_view(t@)[c as int].0 == t@[c as int].value);
        r.frontend_variant = t[c].value;
    } else if k == 16 {
        let t = radix_options();
        if c >= t.len() {
            return false;
        }
        assert(table_view(t@)[c as int].0 == t@[c as int].value);
        r.radix_flavor = Some(t[c].value);
    } else if k == 17 {
        let t = js_language_options();
        if c >= t.len() {
            return false;
        }
        assert(table_view(t@)[c as int].0 == t@[c as int].value);
        r.js_language = t[c].value;
    } else if k == 19 {
        let t = css_options();
        if c >= t.len() {
            return false;
        }
        assert(table_view(t@)[c as int].0 == t@[c as int].value);
        r.css_framework = t[c].value;
    } else if k == 21 {
        let t = broker_options();
        if c >= t.len() {
            return false;
        }
        assert(table_view(t@)[c as int].0 == t@[c as int].value);
        r.celery_broker = t[c].value;
    } else if k == 23 {
        let t = prod_email_options();
        if c >= t.len() {
            return false;
        }
        assert(table_view(t@)[c as int].0 == t@[c as int].value);
        r.prod_email = t[c].value;
    } else if k == 24 {
        let t = storage_options();
        if c >= t.len() {
            return false;
        }
        assert(table_view(t@)[c as int].0 == t@[c as int].value);
        r.storage = t[c].value;
    } else if k == 29 {
        let t = typecheck_options();
        if c >= t.len() {
            return false;
        }
        assert(table_view(t@)[c as int].0 == t@[c as int].value);
        r.type_checker = t[c].value;
    } else if k == 31 {
        let t = ci_options();
        if c >= t.len() {
            return false;
        }
        assert(table_view(t@)[c as int].0 == t@[c as int].value);
        r.ci = t[c].value;
    } else if k == 32 {
        let t = container_options();
        if c >= t.len() {
            return false;
        }
        assert(table_view(t@)[c as int].0 == t@[c as int].value);
        r.container_setup = t[c].value;
    } else {
        let t = vcs_options();
        if c >= t.len() {
            return false;
        }
        assert(table_view(t@)[c as int].0 == t@[c as int].value);
        r.version_control = t[c].value;
    }
    true
}

fn set_skipped(r: &mut Recipe, k: usize)
    requires
        !asked(*old(r), k as int),
        k < QUESTION_COUNT,
    ensures
        same_but(*old(r), *final(r), k as int),
        skipped_value_ok(*old(r), *final(r), k as int),
{
    if k == 15 {
        r.frontend_variant = FrontendVariant::Full;
    } else if k == 16 {
        r.radix_flavor = None;
    } else if k == 18 {
        r.js_testing = false;
    } else if k == 28 {
        r.multi_tenant = false;
    } else if k == 35 {
        r.db_password = String::new();
    } else if k == 38 {
        r.flower_user = String::new();
    } else if k == 39 {
        r.flower_password = String::new();
    } else if k == 40 {
        r.redis_password = String::new();
    }
}

/// `rs` records a whole questionnaire run, one recipe before each question and the
/// finished one last: each step changes at most the field of its own question, and a
/// question the recipe skips leaves its fixed value (as [`Wizard::skip`] and
/// [`Wizard::answer`] guarantee).
pub open spec fn is_run(rs: Seq<Recipe>) -> bool {
    &&& rs.len() == QUESTION_COUNT + 1
    &&& forall|k: int| 0 <= k < QUESTION_COUNT ==> #[trigger] run_step(rs, k)
}

/// Step `k` of the run `rs`: only question `k`'s field may change, and a skipped question
/// leaves its fixed value.
pub open spec fn run_step(rs: Seq<Recipe>, k: int) -> bool {
    &&& same_but(rs[k], rs[k + 1], k)
    &&& !asked(rs[k], k) ==> skipped_value_ok(rs[k], rs[k + 1], k)
}

/// The skip rules, as a finished recipe shows them: a frontend that is no single-page app
/// has the full variant; only a full React frontend has a Radix flavor; JS testing only
/// with a full single-page app; multi-tenancy only on Postgres; no database password on
/// SQLite; Flower credentials only with Celery; a Redis password only with Celery on Redis.
pub open spec fn skip_rules_hold(r: Recipe) -> bool {
    &&& !is_spa(r.frontend) ==> r.frontend_variant == FrontendVariant::Full
    &&& !(r.frontend == Frontend::React && r.frontend_variant == FrontendVariant::Full)
        ==> r.radix_flavor is None
    &&& !(is_spa(r.frontend) && r.frontend_variant == FrontendVariant::Full) ==> !r.js_testing
    &&& r.relational_db != RelationalDb::Postgres ==> !r.multi_tenant
    &&& r.relational_db == RelationalDb::Sqlite ==> r.db_password@.len() == 0
    &&& !r.use_celery ==> r.flower_user@.len() == 0 && r.flower_password@.len() == 0
    &&& !(r.use_celery && r.celery_broker == CeleryBroker::Redis) ==> r.redis_password@.len()
        == 0
}

/// The fields the skip rules read or set agree between `o` and `n` for every question
/// before `i`.
spec fn settled(o: Recipe, n: Recipe, i: int) -> bool {
    &&& i > 11 ==> n.relational_db == o.relational_db
    &&& i > 14 ==> n.frontend == o.frontend
    &&& i > 15 ==> n.frontend_variant == o.frontend_variant
    &&& i > 16 ==> n.radix_flavor == o.radix_flavor
    &&& i > 18 ==> n.js_testing == o.js_testing
    &&& i > 20 ==> n.use_celery == o.use_celery
    &&& i > 21 ==> n.celery_broker == o.celery_broker
    &&& i > 28 ==> n.multi_tenant == o.multi_tenant
    &&& i > 35 ==> n.db_password@ == o.db_password@
    &&& i > 38 ==> n.flower_user@ == o.flower_user@
    &&& i > 39 ==> n.flower_password@ == o.flower_password@
    &&& i > 40 ==> n.redis_password@ == o.redis_password@
}

/// Later steps of a run leave what the first `i` questions settled.
proof fn lemma_run_settles(rs: Seq<Recipe>, i: int, j: int)
    requires
        is_run(rs),
        0 <= i <= j <= QUESTION_COUNT,
    ensures
        settled(rs[i], rs[j], i),
    decreases j - i,
{
    if i < j {
        lemma_run_settles(rs, i, j - 1);
        assert(run_step(rs, j - 1));
    }
}

/// A whole questionnaire run keeps the skip rules: whatever the preset and the answers,
/// the finished recipe has the fixed value of every question its own answers skip.
pub proof fn law_run_keeps_skip_rules(rs: Seq<Recipe>)
    requires
        is_run(rs),
    ensures
        skip_rules_hold(rs[QUESTION_COUNT as int]),
{
    let last = QUESTION_COUNT as int;
    assert(run_step(rs, 15));
    assert(run_step(rs, 16));
    assert(run_step(rs, 18));
    assert(run_step(rs, 28));
    assert(run_step(rs, 35));
    assert(run_step(rs, 38));
    assert(run_step(rs, 39));
    assert(run_step(rs, 40));
    lemma_run_settles(rs, 15, last);
    lemma_run_settles(rs, 16, last);
    lemma_run_settles(rs, 17, last);
    lemma_run_settles(rs, 18, last);
    lemma_run_settles(rs, 19, last);
    lemma_run_settles(rs, 28, last);
    lemma_run_settles(rs, 29, last);
    lemma_run_settles(rs, 35, last);
    lemma_run_settles(rs, 36, last);
    lemma_run_settles(rs, 38, last);
    lemma_run_settles(rs, 39, last);
    lemma_run_settles(rs, 40, last);
    lemma_run_settles(rs, 41, last);
}

/// The questionnaire: a recipe being filled in, starting from a preset whose values are the
/// defaults, and the index of the current question.
pub struct Wizard {
    recipe: Recipe,
    step: usize,
}

impl Wizard {
    /// The questionnaire is well formed: at most past the last question, and the answers so
    /// far consistent.
    pub closed spec fn wf(&self) -> bool {
        &&& self.step <= QUESTION_COUNT
        &&& consistent_upto(self.recipe, self.step as int)
    }

    /// The recipe so far.
    pub closed spec fn current(&self) -> Recipe {
        self.recipe
    }

    /// The index of the current question ([`QUESTION_COUNT`] when all are done).
    pub closed spec fn at(&self) -> int {
        self.step as int
    }

    /// A questionnaire whose defaults are `preset`'s values.
    pub fn new(preset: Recipe) -> (res: Self)
        ensures
            res.wf(),
            res.current() == preset,
            res.at() == 0,
    {
        Wizard { recipe: preset, step: 0 }
    }

    /// The recipe so far (the finished recipe once all questions are done). A finished
    /// questionnaire always yields a recipe that [`Recipe::validate`] accepts.
    pub fn finish(self) -> (res: Recipe)
        requires
            self.wf(),
        ensures
            res == self.current(),
            self.at() >= QUESTION_COUNT ==> res.validation_error() is None,
    {
        self.recipe
    }

    /// What comes next: the prompt for the current question, a skip, or the end. Refused
    /// with a message only for a question whose default is a generated secret, when the
    /// operating system's random number generator fails.
    pub fn turn(&self) -> (res: Result<Turn, &'static str>)
        requires
            self.wf(),
        ensures
            self.at() >= QUESTION_COUNT ==> res == Ok::<Turn, &'static str>(Turn::Finished),
            self.at() < QUESTION_COUNT && !asked(self.current(), self.at()) ==> res == Ok::<
                Turn,
                &'static str,
            >(Turn::Skip { banner: banner_at(self.at()) }),
            self.at() < QUESTION_COUNT && asked(self.current(), self.at()) ==> ((res matches Ok(
                Turn::Ask { banner, prompt },
            ) && banner == banner_at(self.at()) && prompt_ok(self.current(), self.at(), prompt))
                || (generates_secret(self.at()) && (res matches Err(m) && m@ == no_secret_message()))),
    {
        let r = &self.recipe;
        let k = self.step;
        if k >= QUESTION_COUNT {
            return Ok(Turn::Finished);
        }
        let banner = if k == 0 {
            Some(Banner::Stage(1))
        } else if k == 8 {
            Some(Banner::Stage(2))
        } else if k == 20 {
            Some(Banner::Stage(3))
        } else if k == 35 {
            Some(Banner::Credentials)
        } else {
            None
        };
        if !is_asked(r, k) {
            return Ok(Turn::Skip { banner });
        }
        let prompt = match question_kind(k) {
            QuestionKind::Text(rule) => {
                let default = match text_default(r, k) {
                    Some(d) => d,
                    None => {
                        return Err("the operating system's random number generator failed");
                    },
                };
                Prompt::Text { message: message(k), default, help: help(k), rule }
            },
            QuestionKind::Confirm => Prompt::Confirm {
                message: message(k),
                default: flag(r, k),
                help: help(k),
            },
            QuestionKind::Select => {
                let (labels, start) = select_parts(r, k);
                Prompt::Select { message: message(k), labels, start }
            },
        };
        Ok(Turn::Ask { banner, prompt })
    }

    /// Passes over a question the recipe skips, leaving its fixed value. Refused (and
    /// nothing changes) when the current question is asked or all are done.
    pub fn skip(&mut self) -> (res: Result<(), &'static str>)
        requires
            old(self).wf(),
        ensures
            final(self).wf(),
            res is Ok <==> (old(self).at() < QUESTION_COUNT && !asked(old(self).current(), old(self).at())),
            res is Ok ==> final(self).at() == old(self).at() + 1 && same_but(
                old(self).current(),
                final(self).current(),
                old(self).at(),
            ) && skipped_value_ok(old(self).current(), final(self).current(), old(self).at()),
            res is Err ==> final(self).current() == old(self).current() && final(self).at()
                == old(self).at(),
    {
        if self.step >= QUESTION_COUNT || is_asked(&self.recipe, self.step) {
            return Err("the current question is asked, not skipped");
        }
        set_skipped(&mut self.recipe, self.step);
        self.step = self.step + 1;
        Ok(())
    }

    /// Records the answer to the current question. Refused with a message (and nothing
    /// changes) when all questions are done, the question is skipped, or the answer does
    /// not fit it: wrong kind, choice out of range, or a broken text rule.
    pub fn answer(&mut self, a: Answer) -> (res: Result<(), &'static str>)
        requires
            old(self).wf(),
        ensures
            final(self).wf(),
            res is Ok <==> (old(self).at() < QUESTION_COUNT && asked(old(self).current(), old(self).at())
                && answer_fits(old(self).at(), a)),
            res is Ok ==> final(self).at() == old(self).at() + 1 && same_but(
                old(self).current(),
                final(self).current(),
                old(self).at(),
            ) && answer_applied(final(self).current(), old(self).at(), a),
            res is Err ==> final(self).current() == old(self).current() && final(self).at()
                == old(self).at(),
    {
        if self.step >= QUESTION_COUNT || !is_asked(&self.recipe, self.step) {
            return Err("no question is waiting for an answer");
        }
        let k = self.step;
        match (question_kind(k), a) {
            (QuestionKind::Text(rule), Answer::Text(s)) => {
                if let Some(m) = check_text(rule, s.as_str()) {
                    return Err(m);
                }
                set_text(&mut self.recipe, k, s);
            },
            (QuestionKind::Confirm, Answer::Confirm(b)) => {
                set_flag(&mut self.recipe, k, b);
            },
            (QuestionKind::Select, Answer::Choice(c)) => {
                if !set_choice(&mut self.recipe, k, c) {
                    return Err("choice out of range");
                }
            },
            (QuestionKind::Text(_), _) => {
                return Err("expected a text answer");
            },
            (QuestionKind::Confirm, _) => {
                return Err("expected a yes / no answer");
            },
            (QuestionKind::Select, _) => {
                return Err("expected a choice");
            },
        }
        self.step = self.step + 1;
        Ok(())
    }
}

} // verus!

