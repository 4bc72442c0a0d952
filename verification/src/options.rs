//! Option enums of a [`Recipe`](crate::recipe::Recipe), each with the lower-case /
//! kebab-case string it is written as in recipe files and in templates.

use vstd::prelude::*;

verus! {

/// Open-source license offered at generation time.
#[derive(Debug, Clone, Copy, PartialEq, Eq, Structural)]
pub enum License {
    Mit,
    Apache2,
    Bsd3,
    Proprietary,
}

impl License {
    /// The string this option is written as in recipe files and templates.
    pub open spec fn spec_str(self) -> Seq<char> {
        match self {
            License::Mit => "mit"@,
            License::Apache2 => "apache-2"@,
            License::Bsd3 => "bsd-3"@,
            License::Proprietary => "proprietary"@,
        }
    }

    /// The string this option is written as in recipe files and templates.
    pub fn as_str(&self) -> (res: &'static str)
        ensures
            res@ == self.spec_str(),
    {
        match self {
            License::Mit => "mit",
            License::Apache2 => "apache-2",
            License::Bsd3 => "bsd-3",
            License::Proprietary => "proprietary",
        }
    }

    /// Every option, in declaration order.
    pub fn all() -> (res: Vec<Self>)
        ensures
            res@ == seq![License::Mit, License::Apache2, License::Bsd3, License::Proprietary],
    {
        vec![License::Mit, License::Apache2, License::Bsd3, License::Proprietary]
    }
}

/// Python interpreter version to target in generated projects.
#[derive(Debug, Clone, Copy, PartialEq, Eq, Structural)]
pub enum PythonVersion {
    Py314,
    Py313,
}

impl PythonVersion {
    /// The string this option is written as in recipe files and templates.
    pub open spec fn spec_str(self) -> Seq<char> {
        match self {
            PythonVersion::Py314 => "3.14"@,
            PythonVersion::Py313 => "3.13"@,
        }
    }

    /// The string this option is written as in recipe files and templates.
    pub fn as_str(&self) -> (res: &'static str)
        ensures
            res@ == self.spec_str(),
    {
        match self {
            PythonVersion::Py314 => "3.14",
            PythonVersion::Py313 => "3.13",
        }
    }

    /// Every option, in declaration order.
    pub fn all() -> (res: Vec<Self>)
        ensures
            res@ == seq![PythonVersion::Py314, PythonVersion::Py313],
    {
        vec![PythonVersion::Py314, PythonVersion::Py313]
    }
}

/// Django framework version.
#[derive(Debug, Clone, Copy, PartialEq, Eq, Structural)]
pub enum DjangoVersion {
    Dj60,
}

impl DjangoVersion {
    /// The string this option is written as in recipe files and templates.
    pub open spec fn spec_str(self) -> Seq<char> {
        match self {
            DjangoVersion::Dj60 => "6.0"@,
        }
    }

    /// The string this option is written as in recipe files and templates.
    pub fn as_str(&self) -> (res: &'static str)
        ensures
            res@ == self.spec_str(),
    {
        match self {
            DjangoVersion::Dj60 => "6.0",
        }
    }

    /// Every option, in declaration order.
    pub fn all() -> (res: Vec<Self>)
        ensures
            res@ == seq![DjangoVersion::Dj60],
    {
        vec![DjangoVersion::Dj60]
    }
}

/// Which environment's defaults to optimize for at generation time.
#[derive(Debug, Clone, Copy, PartialEq, Eq, Structural)]
pub enum Mode {
    Production,
    Development,
}

impl Mode {
    /// The string this option is written as in recipe files and templates.
    pub open spec fn spec_str(self) -> Seq<char> {
        match self {
            Mode::Production => "production"@,
            Mode::Development => "development"@,
        }
    }

    /// The string this option is written as in recipe files and templates.
    pub fn as_str(&self) -> (res: &'static str)
        ensures
            res@ == self.spec_str(),
    {
        match self {
            Mode::Production => "production",
            Mode::Development => "development",
        }
    }

    /// Every option, in declaration order.
    pub fn all() -> (res: Vec<Self>)
        ensures
            res@ == seq![Mode::Production, Mode::Development],
    {
        vec![Mode::Production, Mode::Development]
    }
}

/// Primary relational database.
#[derive(Debug, Clone, Copy, PartialEq, Eq, Structural)]
pub enum RelationalDb {
    Postgres,
    Sqlite,
    Mysql,
    Mariadb,
}

impl RelationalDb {
    /// The string this option is written as in recipe files and templates.
    pub open spec fn spec_str(self) -> Seq<char> {
        match self {
            RelationalDb::Postgres => "postgres"@,
            RelationalDb::Sqlite => "sqlite"@,
            RelationalDb::Mysql => "mysql"@,
            RelationalDb::Mariadb => "mariadb"@,
        }
    }

    /// The string this option is written as in recipe files and templates.
    pub fn as_str(&self) -> (res: &'static str)
        ensures
            res@ == self.spec_str(),
    {
        match self {
            RelationalDb::Postgres => "postgres",
            RelationalDb::Sqlite => "sqlite",
            RelationalDb::Mysql => "mysql",
            RelationalDb::Mariadb => "mariadb",
        }
    }

    /// Every option, in declaration order.
    pub fn all() -> (res: Vec<Self>)
        ensures
            res@ == seq![RelationalDb::Postgres, RelationalDb::Sqlite, RelationalDb::Mysql, RelationalDb::Mariadb],
    {
        vec![RelationalDb::Postgres, RelationalDb::Sqlite, RelationalDb::Mysql, RelationalDb::Mariadb]
    }
}

/// Optional graph database add-on.
#[derive(Debug, Clone, Copy, PartialEq, Eq, Structural)]
pub enum GraphDb {
    Nothing,
    Neo4j,
    Nebula,
    Surreal,
    Dgraph,
}

impl GraphDb {
    /// The string this option is written as in recipe files and templates.
    pub open spec fn spec_str(self) -> Seq<char> {
        match self {
            GraphDb::Nothing => "none"@,
            GraphDb::Neo4j => "neo4j"@,
            GraphDb::Nebula => "nebula"@,
            GraphDb::Surreal => "surreal"@,
            GraphDb::Dgraph => "dgraph"@,
        }
    }

    /// The string this option is written as in recipe files and templates.
    pub fn as_str(&self) -> (res: &'static str)
        ensures
            res@ == self.spec_str(),
    {
        match self {
            GraphDb::Nothing => "none",
            GraphDb::Neo4j => "neo4j",
            GraphDb::Nebula => "nebula",
            GraphDb::Surreal => "surreal",
            GraphDb::Dgraph => "dgraph",
        }
    }

    /// Every option, in declaration order.
    pub fn all() -> (res: Vec<Self>)
        ensures
            res@ == seq![GraphDb::Nothing, GraphDb::Neo4j, GraphDb::Nebula, GraphDb::Surreal, GraphDb::Dgraph],
    {
        vec![GraphDb::Nothing, GraphDb::Neo4j, GraphDb::Nebula, GraphDb::Surreal, GraphDb::Dgraph]
    }
}

/// API layer style.
#[derive(Debug, Clone, Copy, PartialEq, Eq, Structural)]
pub enum ApiLayer {
    Ninja,
    Drf,
    GraphqlStrawberry,
    GraphqlGraphene,
    Nothing,
}

impl ApiLayer {
    /// The string this option is written as in recipe files and templates.
    pub open spec fn spec_str(self) -> Seq<char> {
        match self {
            ApiLayer::Ninja => "ninja"@,
            ApiLayer::Drf => "drf"@,
            ApiLayer::GraphqlStrawberry => "graphql-strawberry"@,
            ApiLayer::GraphqlGraphene => "graphql-graphene"@,
            ApiLayer::Nothing => "none"@,
        }
    }

    /// The string this option is written as in recipe files and templates.
    pub fn as_str(&self) -> (res: &'static str)
        ensures
            res@ == self.spec_str(),
    {
        match self {
            ApiLayer::Ninja => "ninja",
            ApiLayer::Drf => "drf",
            ApiLayer::GraphqlStrawberry => "graphql-strawberry",
            ApiLayer::GraphqlGraphene => "graphql-graphene",
            ApiLayer::Nothing => "none",
        }
    }

    /// Every option, in declaration order.
    pub fn all() -> (res: Vec<Self>)
        ensures
            res@ == seq![ApiLayer::Ninja, ApiLayer::Drf, ApiLayer::GraphqlStrawberry, ApiLayer::GraphqlGraphene, ApiLayer::Nothing],
    {
        vec![ApiLayer::Ninja, ApiLayer::Drf, ApiLayer::GraphqlStrawberry, ApiLayer::GraphqlGraphene, ApiLayer::Nothing]
    }
}

/// Frontend style for the generated project.
#[derive(Debug, Clone, Copy, PartialEq, Eq, Structural)]
pub enum Frontend {
    HtmxAlpine,
    React,
    Nuxt,
    Vue,
    Next,
    DjangoTemplates,
    Nothing,
}

impl Frontend {
    /// The string this option is written as in recipe files and templates.
    pub open spec fn spec_str(self) -> Seq<char> {
        match self {
            Frontend::HtmxAlpine => "htmx-alpine"@,
            Frontend::React => "react"@,
            Frontend::Nuxt => "nuxt"@,
            Frontend::Vue => "vue"@,
            Frontend::Next => "next"@,
            Frontend::DjangoTemplates => "django-templates"@,
            Frontend::Nothing => "none"@,
        }
    }

    /// The string this option is written as in recipe files and templates.
    pub fn as_str(&self) -> (res: &'static str)
        ensures
            res@ == self.spec_str(),
    {
        match self {
            Frontend::HtmxAlpine => "htmx-alpine",
            Frontend::React => "react",
            Frontend::Nuxt => "nuxt",
            Frontend::Vue => "vue",
            Frontend::Next => "next",
            Frontend::DjangoTemplates => "django-templates",
            Frontend::Nothing => "none",
        }
    }

    /// Every option, in declaration order.
    pub fn all() -> (res: Vec<Self>)
        ensures
            res@ == seq![Frontend::HtmxAlpine, Frontend::React, Frontend::Nuxt, Frontend::Vue, Frontend::Next, Frontend::DjangoTemplates, Frontend::Nothing],
    {
        vec![Frontend::HtmxAlpine, Frontend::React, Frontend::Nuxt, Frontend::Vue, Frontend::Next, Frontend::DjangoTemplates, Frontend::Nothing]
    }
}

/// Whether the SPA scaffold is opinion-free (skeleton) or comes wired with
/// auth, routing, UI library, and state management (full template).
#[derive(Debug, Clone, Copy, PartialEq, Eq, Structural)]
pub enum FrontendVariant {
    Full,
    Skeleton,
}

impl FrontendVariant {
    /// The string this option is written as in recipe files and templates.
    pub open spec fn spec_str(self) -> Seq<char> {
        match self {
            FrontendVariant::Full => "full"@,
            FrontendVariant::Skeleton => "skeleton"@,
        }
    }

    /// The string this option is written as in recipe files and templates.
    pub fn as_str(&self) -> (res: &'static str)
        ensures
            res@ == self.spec_str(),
    {
        match self {
            FrontendVariant::Full => "full",
            FrontendVariant::Skeleton => "skeleton",
        }
    }

    /// Every option, in declaration order.
    pub fn all() -> (res: Vec<Self>)
        ensures
            res@ == seq![FrontendVariant::Full, FrontendVariant::Skeleton],
    {
        vec![FrontendVariant::Full, FrontendVariant::Skeleton]
    }
}

/// Radix flavor when the React frontend is chosen.
#[derive(Debug, Clone, Copy, PartialEq, Eq, Structural)]
pub enum RadixFlavor {
    Themes,
    Primitives,
}

impl RadixFlavor {
    /// The string this option is written as in recipe files and templates.
    pub open spec fn spec_str(self) -> Seq<char> {
        match self {
            RadixFlavor::Themes => "themes"@,
            RadixFlavor::Primitives => "primitives"@,
        }
    }

    /// The string this option is written as in recipe files and templates.
    pub fn as_str(&self) -> (res: &'static str)
        ensures
            res@ == self.spec_str(),
    {
        match self {
            RadixFlavor::Themes => "themes",
            RadixFlavor::Primitives => "primitives",
        }
    }

    /// Every option, in declaration order.
    pub fn all() -> (res: Vec<Self>)
        ensures
            res@ == seq![RadixFlavor::Themes, RadixFlavor::Primitives],
    {
        vec![RadixFlavor::Themes, RadixFlavor::Primitives]
    }
}

/// JavaScript dialect for SPA frontends.
#[derive(Debug, Clone, Copy, PartialEq, Eq, Structural)]
pub enum JsLanguage {
    Typescript,
    Javascript,
}

impl JsLanguage {
    /// The string this option is written as in recipe files and templates.
    pub open spec fn spec_str(self) -> Seq<char> {
        match self {
            JsLanguage::Typescript => "typescript"@,
            JsLanguage::Javascript => "javascript"@,
        }
    }

    /// The string this option is written as in recipe files and templates.
    pub fn as_str(&self) -> (res: &'static str)
        ensures
            res@ == self.spec_str(),
    {
        match self {
            JsLanguage::Typescript => "typescript",
            JsLanguage::Javascript => "javascript",
        }
    }

    /// Every option, in declaration order.
    pub fn all() -> (res: Vec<Self>)
        ensures
            res@ == seq![JsLanguage::Typescript, JsLanguage::Javascript],
    {
        vec![JsLanguage::Typescript, JsLanguage::Javascript]
    }
}

/// CSS framework for server-rendered templates.
#[derive(Debug, Clone, Copy, PartialEq, Eq, Structural)]
pub enum CssFramework {
    Tailwind,
    Bootstrap,
    Nothing,
}

impl CssFramework {
    /// The string this option is written as in recipe files and templates.
    pub open spec fn spec_str(self) -> Seq<char> {
        match self {
            CssFramework::Tailwind => "tailwind"@,
            CssFramework::Bootstrap => "bootstrap"@,
            CssFramework::Nothing => "none"@,
        }
    }

    /// The string this option is written as in recipe files and templates.
    pub fn as_str(&self) -> (res: &'static str)
        ensures
            res@ == self.spec_str(),
    {
        match self {
            CssFramework::Tailwind => "tailwind",
            CssFramework::Bootstrap => "bootstrap",
            CssFramework::Nothing => "none",
        }
    }

    /// Every option, in declaration order.
    pub fn all() -> (res: Vec<Self>)
        ensures
            res@ == seq![CssFramework::Tailwind, CssFramework::Bootstrap, CssFramework::Nothing],
    {
        vec![CssFramework::Tailwind, CssFramework::Bootstrap, CssFramework::Nothing]
    }
}

/// Celery broker (only used when `use_celery` is true).
#[derive(Debug, Clone, Copy, PartialEq, Eq, Structural)]
pub enum CeleryBroker {
    Redis,
    Rabbitmq,
}

impl CeleryBroker {
    /// The string this option is written as in recipe files and templates.
    pub open spec fn spec_str(self) -> Seq<char> {
        match self {
            CeleryBroker::Redis => "redis"@,
            CeleryBroker::Rabbitmq => "rabbitmq"@,
        }
    }

    /// The string this option is written as in recipe files and templates.
    pub fn as_str(&self) -> (res: &'static str)
        ensures
            res@ == self.spec_str(),
    {
        match self {
            CeleryBroker::Redis => "redis",
            CeleryBroker::Rabbitmq => "rabbitmq",
        }
    }

    /// Every option, in declaration order.
    pub fn all() -> (res: Vec<Self>)
        ensures
            res@ == seq![CeleryBroker::Redis, CeleryBroker::Rabbitmq],
    {
        vec![CeleryBroker::Redis, CeleryBroker::Rabbitmq]
    }
}

/// Production email backend.
#[derive(Debug, Clone, Copy, PartialEq, Eq, Structural)]
pub enum ProdEmail {
    AnymailMailgun,
    AnymailSes,
    AnymailSendgrid,
    AnymailMailjet,
    AnymailMandrill,
    AnymailPostmark,
    AnymailBrevo,
    AnymailSparkpost,
    Smtp,
    Console,
}

impl ProdEmail {
    /// The string this option is written as in recipe files and templates.
    pub open spec fn spec_str(self) -> Seq<char> {
        match self {
            ProdEmail::AnymailMailgun => "anymail-mailgun"@,
            ProdEmail::AnymailSes => "anymail-ses"@,
            ProdEmail::AnymailSendgrid => "anymail-sendgrid"@,
            ProdEmail::AnymailMailjet => "anymail-mailjet"@,
            ProdEmail::AnymailMandrill => "anymail-mandrill"@,
            ProdEmail::AnymailPostmark => "anymail-postmark"@,
            ProdEmail::AnymailBrevo => "anymail-brevo"@,
            ProdEmail::AnymailSparkpost => "anymail-sparkpost"@,
            ProdEmail::Smtp => "smtp"@,
            ProdEmail::Console => "console"@,
        }
    }

    /// The string this option is written as in recipe files and templates.
    pub fn as_str(&self) -> (res: &'static str)
        ensures
            res@ == self.spec_str(),
    {
        match self {
            ProdEmail::AnymailMailgun => "anymail-mailgun",
            ProdEmail::AnymailSes => "anymail-ses",
            ProdEmail::AnymailSendgrid => "anymail-sendgrid",
            ProdEmail::AnymailMailjet => "anymail-mailjet",
            ProdEmail::AnymailMandrill => "anymail-mandrill",
            ProdEmail::AnymailPostmark => "anymail-postmark",
            ProdEmail::AnymailBrevo => "anymail-brevo",
            ProdEmail::AnymailSparkpost => "anymail-sparkpost",
            ProdEmail::Smtp => "smtp",
            ProdEmail::Console => "console",
        }
    }

    /// Every option, in declaration order.
    pub fn all() -> (res: Vec<Self>)
        ensures
            res@ == seq![ProdEmail::AnymailMailgun, ProdEmail::AnymailSes, ProdEmail::AnymailSendgrid, ProdEmail::AnymailMailjet, ProdEmail::AnymailMandrill, ProdEmail::AnymailPostmark, ProdEmail::AnymailBrevo, ProdEmail::AnymailSparkpost, ProdEmail::Smtp, ProdEmail::Console],
    {
        vec![ProdEmail::AnymailMailgun, ProdEmail::AnymailSes, ProdEmail::AnymailSendgrid, ProdEmail::AnymailMailjet, ProdEmail::AnymailMandrill, ProdEmail::AnymailPostmark, ProdEmail::AnymailBrevo, ProdEmail::AnymailSparkpost, ProdEmail::Smtp, ProdEmail::Console]
    }
}

/// Cloud storage backend for media/static assets in production.
#[derive(Debug, Clone, Copy, PartialEq, Eq, Structural)]
pub enum Storage {
    AwsS3,
    Gcs,
    AzureBlob,
    Whitenoise,
    Nginx,
    Nothing,
}

impl Storage {
    /// The string this option is written as in recipe files and templates.
    pub open spec fn spec_str(self) -> Seq<char> {
        match self {
            Storage::AwsS3 => "aws-s3"@,
            Storage::Gcs => "gcs"@,
            Storage::AzureBlob => "azure-blob"@,
            Storage::Whitenoise => "whitenoise"@,
            Storage::Nginx => "nginx"@,
            Storage::Nothing => "none"@,
        }
    }

    /// The string this option is written as in recipe files and templates.
    pub fn as_str(&self) -> (res: &'static str)
        ensures
            res@ == self.spec_str(),
    {
        match self {
            Storage::AwsS3 => "aws-s3",
            Storage::Gcs => "gcs",
            Storage::AzureBlob => "azure-blob",
            Storage::Whitenoise => "whitenoise",
            Storage::Nginx => "nginx",
            Storage::Nothing => "none",
        }
    }

    /// Every option, in declaration order.
    pub fn all() -> (res: Vec<Self>)
        ensures
            res@ == seq![Storage::AwsS3, Storage::Gcs, Storage::AzureBlob, Storage::Whitenoise, Storage::Nginx, Storage::Nothing],
    {
        vec![Storage::AwsS3, Storage::Gcs, Storage::AzureBlob, Storage::Whitenoise, Storage::Nginx, Storage::Nothing]
    }
}

/// Static type checker.
#[derive(Debug, Clone, Copy, PartialEq, Eq, Structural)]
pub enum TypeChecker {
    Mypy,
    Pyright,
    Nothing,
}

impl TypeChecker {
    /// The string this option is written as in recipe files and templates.
    pub open spec fn spec_str(self) -> Seq<char> {
        match self {
            TypeChecker::Mypy => "mypy"@,
            TypeChecker::Pyright => "pyright"@,
            TypeChecker::Nothing => "none"@,
        }
    }

    /// The string this option is written as in recipe files and templates.
    pub fn as_str(&self) -> (res: &'static str)
        ensures
            res@ == self.spec_str(),
    {
        match self {
            TypeChecker::Mypy => "mypy",
            TypeChecker::Pyright => "pyright",
            TypeChecker::Nothing => "none",
        }
    }

    /// Every option, in declaration order.
    pub fn all() -> (res: Vec<Self>)
        ensures
            res@ == seq![TypeChecker::Mypy, TypeChecker::Pyright, TypeChecker::Nothing],
    {
        vec![TypeChecker::Mypy, TypeChecker::Pyright, TypeChecker::Nothing]
    }
}

/// CI provider templates to emit.
#[derive(Debug, Clone, Copy, PartialEq, Eq, Structural)]
pub enum CiProvider {
    GitHubActions,
    GitLabCi,
    Both,
    Nothing,
}

impl CiProvider {
    /// The string this option is written as in recipe files and templates.
    pub open spec fn spec_str(self) -> Seq<char> {
        match self {
            CiProvider::GitHubActions => "github-actions"@,
            CiProvider::GitLabCi => "gitlab-ci"@,
            CiProvider::Both => "both"@,
            CiProvider::Nothing => "none"@,
        }
    }

    /// The string this option is written as in recipe files and templates.
    pub fn as_str(&self) -> (res: &'static str)
        ensures
            res@ == self.spec_str(),
    {
        match self {
            CiProvider::GitHubActions => "github-actions",
            CiProvider::GitLabCi => "gitlab-ci",
            CiProvider::Both => "both",
            CiProvider::Nothing => "none",
        }
    }

    /// Every option, in declaration order.
    pub fn all() -> (res: Vec<Self>)
        ensures
            res@ == seq![CiProvider::GitHubActions, CiProvider::GitLabCi, CiProvider::Both, CiProvider::Nothing],
    {
        vec![CiProvider::GitHubActions, CiProvider::GitLabCi, CiProvider::Both, CiProvider::Nothing]
    }
}

/// Container setup to emit.
#[derive(Debug, Clone, Copy, PartialEq, Eq, Structural)]
pub enum ContainerSetup {
    ComposeTraefik,
    ComposeOnly,
    Nothing,
}

impl ContainerSetup {
    /// The string this option is written as in recipe files and templates.
    pub open spec fn spec_str(self) -> Seq<char> {
        match self {
            ContainerSetup::ComposeTraefik => "compose-traefik"@,
            ContainerSetup::ComposeOnly => "compose-only"@,
            ContainerSetup::Nothing => "none"@,
        }
    }

    /// The string this option is written as in recipe files and templates.
    pub fn as_str(&self) -> (res: &'static str)
        ensures
            res@ == self.spec_str(),
    {
        match self {
            ContainerSetup::ComposeTraefik => "compose-traefik",
            ContainerSetup::ComposeOnly => "compose-only",
            ContainerSetup::Nothing => "none",
        }
    }

    /// Every option, in declaration order.
    pub fn all() -> (res: Vec<Self>)
        ensures
            res@ == seq![ContainerSetup::ComposeTraefik, ContainerSetup::ComposeOnly, ContainerSetup::Nothing],
    {
        vec![ContainerSetup::ComposeTraefik, ContainerSetup::ComposeOnly, ContainerSetup::Nothing]
    }
}

/// Version control system to initialize in the generated project.
#[derive(Debug, Clone, Copy, PartialEq, Eq, Structural)]
pub enum VersionControl {
    Git,
    Jj,
    Hg,
    Nothing,
}

impl VersionControl {
    /// The string this option is written as in recipe files and templates.
    pub open spec fn spec_str(self) -> Seq<char> {
        match self {
            VersionControl::Git => "git"@,
            VersionControl::Jj => "jj"@,
            VersionControl::Hg => "hg"@,
            VersionControl::Nothing => "none"@,
        }
    }

    /// The string this option is written as in recipe files and templates.
    pub fn as_str(&self) -> (res: &'static str)
        ensures
            res@ == self.spec_str(),
    {
        match self {
            VersionControl::Git => "git",
            VersionControl::Jj => "jj",
            VersionControl::Hg => "hg",
            VersionControl::Nothing => "none",
        }
    }

    /// Every option, in declaration order.
    pub fn all() -> (res: Vec<Self>)
        ensures
            res@ == seq![VersionControl::Git, VersionControl::Jj, VersionControl::Hg, VersionControl::Nothing],
    {
        vec![VersionControl::Git, VersionControl::Jj, VersionControl::Hg, VersionControl::Nothing]
    }
}

} // verus!

verus! {

impl PythonVersion {
    /// The interpreter version with its dot, e.g. `3.14`.
    pub fn dotted(&self) -> (res: &'static str)
        ensures
            res@ == self.spec_str(),
    {
        self.as_str()
    }

    /// The interpreter version without its dot, e.g. `314` (as in `py314` tool targets).
    pub open spec fn spec_short(self) -> Seq<char> {
        match self {
            PythonVersion::Py314 => "314"@,
            PythonVersion::Py313 => "313"@,
        }
    }

    /// The interpreter version without its dot, e.g. `314` (as in `py314` tool targets).
    pub fn short(&self) -> (res: &'static str)
        ensures
            res@ == self.spec_short(),
    {
        match self {
            PythonVersion::Py314 => "314",
            PythonVersion::Py313 => "313",
        }
    }
}

} // verus!
