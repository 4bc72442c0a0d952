//! The Recipe — the full set of user choices for one project generation.
//!
//! A Recipe is the shape consumed by the engine. The command-line front end builds it
//! interactively (prompts) or from a saved TOML / JSON file.

use vstd::prelude::*;

use crate::options::{
    ApiLayer, CeleryBroker, CiProvider, ContainerSetup, CssFramework, DjangoVersion, Frontend,
    FrontendVariant, GraphDb, JsLanguage, License, Mode, ProdEmail, PythonVersion, RadixFlavor,
    RelationalDb, Storage, TypeChecker, VersionControl,
};
use crate::text::{ascii_alnum, ascii_alpha, contains_char, chars_of, is_ascii_alnum, is_ascii_alpha, owned};

verus! {

/// Top-level recipe captured at generation time.
#[derive(Debug, Clone)]
pub struct Recipe {
    // --- basics -----------------------------------------------------------
    pub project_name: String,
    pub project_slug: String,
    pub description: String,
    pub author_name: String,
    pub author_email: String,
    pub domain_name: String,
    pub license: License,
    pub open_source: bool,
    // --- stack ------------------------------------------------------------
    pub python_version: PythonVersion,
    pub django_version: DjangoVersion,
    pub mode: Mode,
    pub relational_db: RelationalDb,
    pub graph_db: GraphDb,
    pub api_layer: ApiLayer,
    pub frontend: Frontend,
    pub radix_flavor: Option<RadixFlavor>,
    pub frontend_variant: FrontendVariant,
    pub js_language: JsLanguage,
    pub js_testing: bool,
    pub css_framework: CssFramework,
    // --- add-ons ----------------------------------------------------------
    pub use_celery: bool,
    pub celery_broker: CeleryBroker,
    pub use_mailpit: bool,
    pub prod_email: ProdEmail,
    pub storage: Storage,
    pub use_sentry: bool,
    pub use_observability: bool,
    pub use_feature_flags: bool,
    pub type_checker: TypeChecker,
    pub use_pre_commit: bool,
    pub ci: CiProvider,
    pub container_setup: ContainerSetup,
    pub version_control: VersionControl,
    pub timezone: String,
    /// Multi-tenant mode — scaffolds `django-tenants` with PG-schema-per-tenant
    /// isolation. Requires `relational_db = postgres`.
    pub multi_tenant: bool,
    // --- credentials (empty means: generate a fresh secret at render time) --
    pub db_password: String,
    pub superuser_email: String,
    pub superuser_password: String,
    pub flower_user: String,
    pub flower_password: String,
    pub redis_password: String,
    pub allowed_hosts: String,
    pub admin_url_suffix: String,
}

/// The reason a project slug is refused, if it is.
pub open spec fn slug_error(slug: Seq<char>) -> Option<Seq<char>> {
    if slug.len() == 0 {
        Some("project_slug must not be empty"@)
    } else if !is_ascii_alpha(slug[0]) && slug[0] != '_' {
        Some("project_slug must start with an ASCII letter or underscore"@)
    } else if !(forall|i: int| 0 <= i < slug.len() ==> is_ascii_alnum(#[trigger] slug[i]) || slug[i] == '_') {
        Some("project_slug may only contain ASCII letters, digits, and underscores"@)
    } else {
        None
    }
}

/// A slug that is a valid Python identifier made of ASCII letters, digits and `_`.
pub open spec fn is_valid_slug(slug: Seq<char>) -> bool {
    slug_error(slug) is None
}

impl Recipe {
    /// The reason `validate` refuses this recipe, or `None` when it is accepted.
    pub open spec fn validation_error(self) -> Option<Seq<char>> {
        if slug_error(self.project_slug@) is Some {
            slug_error(self.project_slug@)
        } else if !self.author_email@.contains('@') {
            Some("author_email must contain '@'"@)
        } else if self.multi_tenant && self.relational_db != RelationalDb::Postgres {
            Some(MULTI_TENANT_ERROR@)
        } else if self.frontend == Frontend::React && self.frontend_variant == FrontendVariant::Full
            && self.radix_flavor is None {
            Some("radix_flavor is required when frontend is 'react' and variant is 'full'"@)
        } else {
            None
        }
    }

    /// Whether every field holds the value of [`Recipe::defaults`].
    pub open spec fn is_defaults(self) -> bool {
        &&& self.project_name@ == "My Awesome App"@
        &&& self.project_slug@ == "my_awesome_app"@
        &&& self.description@ == "A production-grade Django project generated with django-bakery."@
        &&& self.author_name@ == "Your Name"@
        &&& self.author_email@ == "you@example.com"@
        &&& self.domain_name@ == "example.com"@
        &&& self.license == License::Mit
        &&& self.open_source
        &&& self.python_version == PythonVersion::Py314
        &&& self.django_version == DjangoVersion::Dj60
        &&& self.mode == Mode::Production
        &&& self.relational_db == RelationalDb::Postgres
        &&& self.graph_db == GraphDb::Nothing
        &&& self.api_layer == ApiLayer::Ninja
        &&& self.frontend == Frontend::HtmxAlpine
        &&& self.radix_flavor is None
        &&& self.frontend_variant == FrontendVariant::Full
        &&& self.js_language == JsLanguage::Typescript
        &&& self.js_testing
        &&& self.css_framework == CssFramework::Tailwind
        &&& self.use_celery
        &&& self.celery_broker == CeleryBroker::Redis
        &&& self.use_mailpit
        &&& self.prod_email == ProdEmail::AnymailMailgun
        &&& self.storage == Storage::AwsS3
        &&& self.use_sentry
        &&& self.use_observability
        &&& !self.use_feature_flags
        &&& self.type_checker == TypeChecker::Mypy
        &&& self.use_pre_commit
        &&& self.ci == CiProvider::GitHubActions
        &&& self.container_setup == ContainerSetup::ComposeTraefik
        &&& self.version_control == VersionControl::Git
        &&& self.timezone@ == "UTC"@
        &&& !self.multi_tenant
        &&& self.db_password@.len() == 0
        &&& self.superuser_email@.len() == 0
        &&& self.superuser_password@.len() == 0
        &&& self.flower_user@.len() == 0
        &&& self.flower_password@.len() == 0
        &&& self.redis_password@.len() == 0
        &&& self.allowed_hosts@.len() == 0
        &&& self.admin_url_suffix@.len() == 0
    }

    /// Build a Recipe pre-filled with sensible production defaults. The command line
    /// overlays user answers on top of this.
    pub fn defaults() -> (res: Self)
        ensures
            res.is_defaults(),
            res.validation_error() is None,
    {
        let r = Recipe {
            project_name: owned("My Awesome App"),
            project_slug: owned("my_awesome_app"),
            description: owned("A production-grade Django project generated with django-bakery."),
            author_name: owned("Your Name"),
            author_email: owned("you@example.com"),
            domain_name: owned("example.com"),
            license: License::Mit,
            open_source: true,
            python_version: PythonVersion::Py314,
            django_version: DjangoVersion::Dj60,
            mode: Mode::Production,
            relational_db: RelationalDb::Postgres,
            graph_db: GraphDb::Nothing,
            api_layer: ApiLayer::Ninja,
            frontend: Frontend::HtmxAlpine,
            radix_flavor: None,
            frontend_variant: FrontendVariant::Full,
            js_language: JsLanguage::Typescript,
            js_testing: true,
            css_framework: CssFramework::Tailwind,
            use_celery: true,
            celery_broker: CeleryBroker::Redis,
            use_mailpit: true,
            prod_email: ProdEmail::AnymailMailgun,
            storage: Storage::AwsS3,
            use_sentry: true,
            use_observability: true,
            use_feature_flags: false,
            type_checker: TypeChecker::Mypy,
            use_pre_commit: true,
            ci: CiProvider::GitHubActions,
            container_setup: ContainerSetup::ComposeTraefik,
            version_control: VersionControl::Git,
            timezone: owned("UTC"),
            multi_tenant: false,
            db_password: String::new(),
            superuser_email: String::new(),
            superuser_password: String::new(),
            flower_user: String::new(),
            flower_password: String::new(),
            redis_password: String::new(),
            allowed_hosts: String::new(),
            admin_url_suffix: String::new(),
        };
        proof {
            reveal_strlit("my_awesome_app");
            reveal_strlit("you@example.com");
            assert(r.author_email@[3] == '@');
            assert(forall|i: int|
                0 <= i < r.project_slug@.len() ==> is_ascii_alnum(#[trigger] r.project_slug@[i])
                    || r.project_slug@[i] == '_');
        }
        r
    }

    pub fn is_postgres(&self) -> (res: bool)
        ensures
            res == (self.relational_db == RelationalDb::Postgres),
    {
        self.relational_db == RelationalDb::Postgres
    }

    pub fn is_sqlite(&self) -> (res: bool)
        ensures
            res == (self.relational_db == RelationalDb::Sqlite),
    {
        self.relational_db == RelationalDb::Sqlite
    }

    pub fn is_mysqlish(&self) -> (res: bool)
        ensures
            res == (self.relational_db == RelationalDb::Mysql || self.relational_db
                == RelationalDb::Mariadb),
    {
        self.relational_db == RelationalDb::Mysql || self.relational_db == RelationalDb::Mariadb
    }

    /// Validates the recipe semantics beyond what the file format checks (slug shape,
    /// allowed combinations). The first failing rule gives the error message.
    pub fn validate(&self) -> (res: Result<(), String>)
        ensures
            res is Ok <==> self.validation_error() is None,
            res matches Err(m) ==> self.validation_error() == Some(m@),
    {
        match check_slug(self.project_slug.as_str()) {
            Some(m) => {
                return Err(owned(m));
            },
            None => {},
        }
        if !contains_char(self.author_email.as_str(), '@') {
            return Err(owned("author_email must contain '@'"));
        }
        if self.multi_tenant && !self.is_postgres() {
            return Err(owned(MULTI_TENANT_ERROR));
        }
        if self.frontend == Frontend::React && self.frontend_variant == FrontendVariant::Full
            && self.radix_flavor.is_none() {
            return Err(
                owned("radix_flavor is required when frontend is 'react' and variant is 'full'"),
            );
        }
        Ok(())
    }
}

/// Refusal message for a multi-tenant recipe on a database other than Postgres.
pub const MULTI_TENANT_ERROR: &'static str =
    "multi_tenant requires relational_db = 'postgres' (django-tenants is PG-only — it uses native Postgres schemas for tenant isolation)";

/// The slug rules of [`Recipe::validate`], in the order they are checked.
pub fn check_slug(slug: &str) -> (res: Option<&'static str>)
    ensures
        res is None <==> slug_error(slug@) is None,
        res matches Some(m) ==> slug_error(slug@) == Some(m@),
{
    let cs = chars_of(slug);
    if cs.len() == 0 {
        return Some("project_slug must not be empty");
    }
    let first = cs[0];
    if !ascii_alpha(first) && first != '_' {
        return Some("project_slug must start with an ASCII letter or underscore");
    }
    let mut i: usize = 0;
    while i < cs.len()
        invariant
            i <= cs.len(),
            cs@ == slug@,
            slug@.len() > 0,
            is_ascii_alpha(slug@[0]) || slug@[0] == '_',
            forall|j: int| 0 <= j < i ==> is_ascii_alnum(#[trigger] cs@[j]) || cs@[j] == '_',
        decreases cs.len() - i,
    {
        if !ascii_alnum(cs[i]) && cs[i] != '_' {
            assert(!is_ascii_alnum(slug@[i as int]) && slug@[i as int] != '_');
            return Some("project_slug may only contain ASCII letters, digits, and underscores");
        }
        i = i + 1;
    }
    None
}

/// What `validate` guarantees of every recipe it accepts: a slug that is a Python
/// identifier of ASCII letters, digits and `_`; an author e-mail with an `@`;
/// multi-tenancy only on Postgres (django-tenants needs Postgres schemas, so MySQL,
/// MariaDB and SQLite are all refused); and a Radix flavor for a full React frontend.
pub proof fn law_accepted_recipes_are_consistent(r: Recipe)
    requires
        r.validation_error() is None,
    ensures
        r.project_slug@.len() > 0,
        is_ascii_alpha(r.project_slug@[0]) || r.project_slug@[0] == '_',
        forall|i: int|
            0 <= i < r.project_slug@.len() ==> is_ascii_alnum(#[trigger] r.project_slug@[i])
                || r.project_slug@[i] == '_',
        r.author_email@.contains('@'),
        r.multi_tenant ==> r.relational_db == RelationalDb::Postgres,
        r.frontend == Frontend::React && r.frontend_variant == FrontendVariant::Full
            ==> r.radix_flavor is Some,
{
}

/// A multi-tenant recipe on any database but Postgres is refused, whatever else it holds;
/// once the slug and e-mail pass, the refusal names the Postgres requirement.
pub proof fn law_multi_tenant_off_postgres_is_refused(r: Recipe)
    requires
        r.multi_tenant,
        r.relational_db != RelationalDb::Postgres,
    ensures
        r.validation_error() is Some,
        slug_error(r.project_slug@) is None && r.author_email@.contains('@')
            ==> r.validation_error() == Some(MULTI_TENANT_ERROR@),
{
}

/// The rules are all `validate` checks: a recipe with a slug that is a Python identifier
/// of ASCII letters, digits and `_`, an author e-mail with an `@`, multi-tenancy only on
/// Postgres and a Radix flavor for a full React frontend is accepted.
pub proof fn law_consistent_recipes_are_accepted(r: Recipe)
    requires
        r.project_slug@.len() > 0,
        is_ascii_alpha(r.project_slug@[0]) || r.project_slug@[0] == '_',
        forall|i: int|
            0 <= i < r.project_slug@.len() ==> is_ascii_alnum(#[trigger] r.project_slug@[i])
                || r.project_slug@[i] == '_',
        r.author_email@.contains('@'),
        r.multi_tenant ==> r.relational_db == RelationalDb::Postgres,
        r.frontend == Frontend::React && r.frontend_variant == FrontendVariant::Full
            ==> r.radix_flavor is Some,
    ensures
        r.validation_error() is None,
{
}

} // verus!
