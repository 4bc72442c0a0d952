//! The option tables of the interactive questionnaire: for each single-select question,
//! its choices in display order with a label and a hint.

use vstd::prelude::*;

use crate::options::{
    ApiLayer, CeleryBroker, CiProvider, ContainerSetup, CssFramework, DjangoVersion, Frontend,
    FrontendVariant, GraphDb, JsLanguage, License, Mode, ProdEmail, PythonVersion, RadixFlavor,
    RelationalDb, Storage, TypeChecker, VersionControl,
};

verus! {

/// One choice of a single-select question.
#[derive(Debug, Clone, Copy)]
pub struct Labeled<T> {
    pub value: T,
    pub label: &'static str,
    pub hint: &'static str,
}

/// The (value, label, hint) views of a table.
pub open spec fn table_view<T>(t: Seq<Labeled<T>>) -> Seq<(T, Seq<char>, Seq<char>)> {
    t.map_values(|l: Labeled<T>| (l.value, l.label@, l.hint@))
}

/// The choices of the `License` question.
pub open spec fn license_choices() -> Seq<(License, Seq<char>, Seq<char>)> {
    seq![
        (License::Mit, "MIT"@, "permissive, widely used"@),
        (License::Apache2, "Apache 2.0"@, "permissive with patent grant"@),
        (License::Bsd3, "BSD-3-Clause"@, "permissive"@),
        (License::Proprietary, "Proprietary"@, "all rights reserved"@),
    ]
}

/// The choices of the `License` question, in display order.
pub fn license_options() -> (res: Vec<Labeled<License>>)
    ensures
        table_view(res@) == license_choices(),
{
    let v = vec![
        Labeled { value: License::Mit, label: "MIT", hint: "permissive, widely used" },
        Labeled { value: License::Apache2, label: "Apache 2.0", hint: "permissive with patent grant" },
        Labeled { value: License::Bsd3, label: "BSD-3-Clause", hint: "permissive" },
        Labeled { value: License::Proprietary, label: "Proprietary", hint: "all rights reserved" },
    ];
    assert(table_view(v@) =~= license_choices());
    v
}

/// The choices of the `PythonVersion` question.
pub open spec fn py_choices() -> Seq<(PythonVersion, Seq<char>, Seq<char>)> {
    seq![
        (PythonVersion::Py314, "Python 3.14"@, "default (2026)"@),
        (PythonVersion::Py313, "Python 3.13"@, "for older infra"@),
    ]
}

/// The choices of the `PythonVersion` question, in display order.
pub fn py_options() -> (res: Vec<Labeled<PythonVersion>>)
    ensures
        table_view(res@) == py_choices(),
{
    let v = vec![
        Labeled { value: PythonVersion::Py314, label: "Python 3.14", hint: "default (2026)" },
        Labeled { value: PythonVersion::Py313, label: "Python 3.13", hint: "for older infra" },
    ];
    assert(table_view(v@) =~= py_choices());
    v
}

/// The choices of the `DjangoVersion` question.
pub open spec fn django_choices() -> Seq<(DjangoVersion, Seq<char>, Seq<char>)> {
    seq![
        (DjangoVersion::Dj60, "Django 6.0"@, "LTS-track, async ORM"@),
    ]
}

/// The choices of the `DjangoVersion` question, in display order.
pub fn django_options() -> (res: Vec<Labeled<DjangoVersion>>)
    ensures
        table_view(res@) == django_choices(),
{
    let v = vec![
        Labeled { value: DjangoVersion::Dj60, label: "Django 6.0", hint: "LTS-track, async ORM" },
    ];
    assert(table_view(v@) =~= django_choices());
    v
}

/// The choices of the `Mode` question.
pub open spec fn mode_choices() -> Seq<(Mode, Seq<char>, Seq<char>)> {
    seq![
        (Mode::Production, "Production"@, "Postgres + Docker by default"@),
        (Mode::Development, "Development"@, "SQLite by default, fast iteration"@),
    ]
}

/// The choices of the `Mode` question, in display order.
pub fn mode_options() -> (res: Vec<Labeled<Mode>>)
    ensures
        table_view(res@) == mode_choices(),
{
    let v = vec![
        Labeled { value: Mode::Production, label: "Production", hint: "Postgres + Docker by default" },
        Labeled { value: Mode::Development, label: "Development", hint: "SQLite by default, fast iteration" },
    ];
    assert(table_view(v@) =~= mode_choices());
    v
}

/// The choices of the `RelationalDb` question.
pub open spec fn db_choices() -> Seq<(RelationalDb, Seq<char>, Seq<char>)> {
    seq![
        (RelationalDb::Postgres, "PostgreSQL 18"@, "recommended"@),
        (RelationalDb::Sqlite, "SQLite"@, "zero-config dev"@),
        (RelationalDb::Mysql, "MySQL 8"@, "Oracle MySQL"@),
        (RelationalDb::Mariadb, "MariaDB 11"@, "MySQL fork"@),
    ]
}

/// The choices of the `RelationalDb` question, in display order.
pub fn db_options() -> (res: Vec<Labeled<RelationalDb>>)
    ensures
        table_view(res@) == db_choices(),
{
    let v = vec![
        Labeled { value: RelationalDb::Postgres, label: "PostgreSQL 18", hint: "recommended" },
        Labeled { value: RelationalDb::Sqlite, label: "SQLite", hint: "zero-config dev" },
        Labeled { value: RelationalDb::Mysql, label: "MySQL 8", hint: "Oracle MySQL" },
        Labeled { value: RelationalDb::Mariadb, label: "MariaDB 11", hint: "MySQL fork" },
    ];
    assert(table_view(v@) =~= db_choices());
    v
}

/// The choices of the `GraphDb` question.
pub open spec fn graph_choices() -> Seq<(GraphDb, Seq<char>, Seq<char>)> {
    seq![
        (GraphDb::Nothing, "None"@, "no graph DB"@),
        (GraphDb::Neo4j, "Neo4j 5"@, "Cypher, neomodel"@),
        (GraphDb::Nebula, "NebulaGraph"@, "distributed, nGQL"@),
        (GraphDb::Surreal, "SurrealDB"@, "multi-model"@),
        (GraphDb::Dgraph, "Dgraph"@, "GraphQL+DQL"@),
    ]
}

/// The choices of the `GraphDb` question, in display order.
pub fn graph_options() -> (res: Vec<Labeled<GraphDb>>)
    ensures
        table_view(res@) == graph_choices(),
{
    let v = vec![
        Labeled { value: GraphDb::Nothing, label: "None", hint: "no graph DB" },
        Labeled { value: GraphDb::Neo4j, label: "Neo4j 5", hint: "Cypher, neomodel" },
        Labeled { value: GraphDb::Nebula, label: "NebulaGraph", hint: "distributed, nGQL" },
        Labeled { value: GraphDb::Surreal, label: "SurrealDB", hint: "multi-model" },
        Labeled { value: GraphDb::Dgraph, label: "Dgraph", hint: "GraphQL+DQL" },
    ];
    assert(table_view(v@) =~= graph_choices());
    v
}

/// The choices of the `ApiLayer` question.
pub open spec fn api_choices() -> Seq<(ApiLayer, Seq<char>, Seq<char>)> {
    seq![
        (ApiLayer::Ninja, "Django Ninja"@, "OpenAPI, async, Pydantic 2"@),
        (ApiLayer::Drf, "Django REST Framework"@, "battle-tested, full-featured"@),
        (ApiLayer::GraphqlStrawberry, "GraphQL (Strawberry)"@, "type-first"@),
        (ApiLayer::GraphqlGraphene, "GraphQL (Graphene)"@, "classic"@),
        (ApiLayer::Nothing, "None"@, "no API layer"@),
    ]
}

/// The choices of the `ApiLayer` question, in display order.
pub fn api_options() -> (res: Vec<Labeled<ApiLayer>>)
    ensures
        table_view(res@) == api_choices(),
{
    let v = vec![
        Labeled { value: ApiLayer::Ninja, label: "Django Ninja", hint: "OpenAPI, async, Pydantic 2" },
        Labeled { value: ApiLayer::Drf, label: "Django REST Framework", hint: "battle-tested, full-featured" },
        Labeled { value: ApiLayer::GraphqlStrawberry, label: "GraphQL (Strawberry)", hint: "type-first" },
        Labeled { value: ApiLayer::GraphqlGraphene, label: "GraphQL (Graphene)", hint: "classic" },
        Labeled { value: ApiLayer::Nothing, label: "None", hint: "no API layer" },
    ];
    assert(table_view(v@) =~= api_choices());
    v
}

/// The choices of the `Frontend` question.
pub open spec fn frontend_choices() -> Seq<(Frontend, Seq<char>, Seq<char>)> {
    seq![
        (Frontend::HtmxAlpine, "HTMX + Alpine.js"@, "server-rendered, minimal JS"@),
        (Frontend::React, "React + Vite"@, "SPA, optional Radix UI"@),
        (Frontend::Nuxt, "Nuxt 4"@, "Vue + Nitro, SSR"@),
        (Frontend::Vue, "Vue 3 + Vite"@, "SPA, no Nuxt opinions"@),
        (Frontend::Next, "Next.js 16"@, "React + App Router, SSR"@),
        (Frontend::DjangoTemplates, "Django templates only"@, "no JS framework"@),
        (Frontend::Nothing, "None (API-only)"@, "headless backend"@),
    ]
}

/// The choices of the `Frontend` question, in display order.
pub fn frontend_options() -> (res: Vec<Labeled<Frontend>>)
    ensures
        table_view(res@) == frontend_choices(),
{
    let v = vec![
        Labeled { value: Frontend::HtmxAlpine, label: "HTMX + Alpine.js", hint: "server-rendered, minimal JS" },
        Labeled { value: Frontend::React, label: "React + Vite", hint: "SPA, optional Radix UI" },
        Labeled { value: Frontend::Nuxt, label: "Nuxt 4", hint: "Vue + Nitro, SSR" },
        Labeled { value: Frontend::Vue, label: "Vue 3 + Vite", hint: "SPA, no Nuxt opinions" },
        Labeled { value: Frontend::Next, label: "Next.js 16", hint: "React + App Router, SSR" },
        Labeled { value: Frontend::DjangoTemplates, label: "Django templates only", hint: "no JS framework" },
        Labeled { value: Frontend::Nothing, label: "None (API-only)", hint: "headless backend" },
    ];
    assert(table_view(v@) =~= frontend_choices());
    v
}

/// The choices of the `FrontendVariant` question.
pub open spec fn variant_choices() -> Seq<(FrontendVariant, Seq<char>, Seq<char>)> {
    seq![
        (FrontendVariant::Full, "Full template"@, "auth wired, UI library, router, state — production-ready"@),
        (FrontendVariant::Skeleton, "Skeleton"@, "minimal scaffold + Django integration — build your own from here"@),
    ]
}

/// The choices of the `FrontendVariant` question, in display order.
pub fn variant_options() -> (res: Vec<Labeled<FrontendVariant>>)
    ensures
        table_view(res@) == variant_choices(),
{
    let v = vec![
        Labeled { value: FrontendVariant::Full, label: "Full template", hint: "auth wired, UI library, router, state — production-ready" },
        Labeled { value: FrontendVariant::Skeleton, label: "Skeleton", hint: "minimal scaffold + Django integration — build your own from here" },
    ];
    assert(table_view(v@) =~= variant_choices());
    v
}

/// The choices of the `RadixFlavor` question.
pub open spec fn radix_choices() -> Seq<(RadixFlavor, Seq<char>, Seq<char>)> {
    seq![
        (RadixFlavor::Themes, "Radix Themes"@, "pre-styled components"@),
        (RadixFlavor::Primitives, "Radix Primitives + Tailwind v4"@, "headless + custom styles"@),
    ]
}

/// The choices of the `RadixFlavor` question, in display order.
pub fn radix_options() -> (res: Vec<Labeled<RadixFlavor>>)
    ensures
        table_view(res@) == radix_choices(),
{
    let v = vec![
        Labeled { value: RadixFlavor::Themes, label: "Radix Themes", hint: "pre-styled components" },
        Labeled { value: RadixFlavor::Primitives, label: "Radix Primitives + Tailwind v4", hint: "headless + custom styles" },
    ];
    assert(table_view(v@) =~= radix_choices());
    v
}

/// The choices of the `JsLanguage` question.
pub open spec fn js_language_choices() -> Seq<(JsLanguage, Seq<char>, Seq<char>)> {
    seq![
        (JsLanguage::Typescript, "TypeScript 6+"@, "default — strict typing"@),
        (JsLanguage::Javascript, "JavaScript (ESM)"@, "no type checker"@),
    ]
}

/// The choices of the `JsLanguage` question, in display order.
pub fn js_language_options() -> (res: Vec<Labeled<JsLanguage>>)
    ensures
        table_view(res@) == js_language_choices(),
{
    let v = vec![
        Labeled { value: JsLanguage::Typescript, label: "TypeScript 6+", hint: "default — strict typing" },
        Labeled { value: JsLanguage::Javascript, label: "JavaScript (ESM)", hint: "no type checker" },
    ];
    assert(table_view(v@) =~= js_language_choices());
    v
}

/// The choices of the `VersionControl` question.
pub open spec fn vcs_choices() -> Seq<(VersionControl, Seq<char>, Seq<char>)> {
    seq![
        (VersionControl::Git, "git"@, "default; `git init --initial-branch=main`"@),
        (VersionControl::Jj, "jj (Jujutsu)"@, "git-colocated"@),
        (VersionControl::Hg, "Mercurial (hg)"@, ""@),
        (VersionControl::Nothing, "None"@, "no VCS init"@),
    ]
}

/// The choices of the `VersionControl` question, in display order.
pub fn vcs_options() -> (res: Vec<Labeled<VersionControl>>)
    ensures
        table_view(res@) == vcs_choices(),
{
    let v = vec![
        Labeled { value: VersionControl::Git, label: "git", hint: "default; `git init --initial-branch=main`" },
        Labeled { value: VersionControl::Jj, label: "jj (Jujutsu)", hint: "git-colocated" },
        Labeled { value: VersionControl::Hg, label: "Mercurial (hg)", hint: "" },
        Labeled { value: VersionControl::Nothing, label: "None", hint: "no VCS init" },
    ];
    assert(table_view(v@) =~= vcs_choices());
    v
}

/// The choices of the `CssFramework` question.
pub open spec fn css_choices() -> Seq<(CssFramework, Seq<char>, Seq<char>)> {
    seq![
        (CssFramework::Tailwind, "Tailwind v4"@, "CSS-first, @theme tokens"@),
        (CssFramework::Bootstrap, "Bootstrap 5"@, "classic, batteries-included"@),
        (CssFramework::Nothing, "None"@, "bring your own CSS"@),
    ]
}

/// The choices of the `CssFramework` question, in display order.
pub fn css_options() -> (res: Vec<Labeled<CssFramework>>)
    ensures
        table_view(res@) == css_choices(),
{
    let v = vec![
        Labeled { value: CssFramework::Tailwind, label: "Tailwind v4", hint: "CSS-first, @theme tokens" },
        Labeled { value: CssFramework::Bootstrap, label: "Bootstrap 5", hint: "classic, batteries-included" },
        Labeled { value: CssFramework::Nothing, label: "None", hint: "bring your own CSS" },
    ];
    assert(table_view(v@) =~= css_choices());
    v
}

/// The choices of the `CeleryBroker` question.
pub open spec fn broker_choices() -> Seq<(CeleryBroker, Seq<char>, Seq<char>)> {
    seq![
        (CeleryBroker::Redis, "Redis"@, "fast, simple"@),
        (CeleryBroker::Rabbitmq, "RabbitMQ"@, "robust messaging"@),
    ]
}

/// The choices of the `CeleryBroker` question, in display order.
pub fn broker_options() -> (res: Vec<Labeled<CeleryBroker>>)
    ensures
        table_view(res@) == broker_choices(),
{
    let v = vec![
        Labeled { value: CeleryBroker::Redis, label: "Redis", hint: "fast, simple" },
        Labeled { value: CeleryBroker::Rabbitmq, label: "RabbitMQ", hint: "robust messaging" },
    ];
    assert(table_view(v@) =~= broker_choices());
    v
}

/// The choices of the `ProdEmail` question.
pub open spec fn prod_email_choices() -> Seq<(ProdEmail, Seq<char>, Seq<char>)> {
    seq![
        (ProdEmail::AnymailMailgun, "Anymail + Mailgun"@, ""@),
        (ProdEmail::AnymailSes, "Anymail + AWS SES"@, ""@),
        (ProdEmail::AnymailSendgrid, "Anymail + SendGrid"@, ""@),
        (ProdEmail::AnymailMailjet, "Anymail + Mailjet"@, ""@),
        (ProdEmail::AnymailMandrill, "Anymail + Mandrill"@, ""@),
        (ProdEmail::AnymailPostmark, "Anymail + Postmark"@, ""@),
        (ProdEmail::AnymailBrevo, "Anymail + Brevo"@, "ex-Sendinblue"@),
        (ProdEmail::AnymailSparkpost, "Anymail + SparkPost"@, ""@),
        (ProdEmail::Smtp, "SMTP"@, "any provider"@),
        (ProdEmail::Console, "Console (dev only)"@, "print to stdout"@),
    ]
}

/// The choices of the `ProdEmail` question, in display order.
pub fn prod_email_options() -> (res: Vec<Labeled<ProdEmail>>)
    ensures
        table_view(res@) == prod_email_choices(),
{
    let v = vec![
        Labeled { value: ProdEmail::AnymailMailgun, label: "Anymail + Mailgun", hint: "" },
        Labeled { value: ProdEmail::AnymailSes, label: "Anymail + AWS SES", hint: "" },
        Labeled { value: ProdEmail::AnymailSendgrid, label: "Anymail + SendGrid", hint: "" },
        Labeled { value: ProdEmail::AnymailMailjet, label: "Anymail + Mailjet", hint: "" },
        Labeled { value: ProdEmail::AnymailMandrill, label: "Anymail + Mandrill", hint: "" },
        Labeled { value: ProdEmail::AnymailPostmark, label: "Anymail + Postmark", hint: "" },
        Labeled { value: ProdEmail::AnymailBrevo, label: "Anymail + Brevo", hint: "ex-Sendinblue" },
        Labeled { value: ProdEmail::AnymailSparkpost, label: "Anymail + SparkPost", hint: "" },
        Labeled { value: ProdEmail::Smtp, label: "SMTP", hint: "any provider" },
        Labeled { value: ProdEmail::Console, label: "Console (dev only)", hint: "print to stdout" },
    ];
    assert(table_view(v@) =~= prod_email_choices());
    v
}

/// The choices of the `Storage` question.
pub open spec fn storage_choices() -> Seq<(Storage, Seq<char>, Seq<char>)> {
    seq![
        (Storage::AwsS3, "AWS S3"@, ""@),
        (Storage::Gcs, "Google Cloud Storage"@, ""@),
        (Storage::AzureBlob, "Azure Blob Storage"@, ""@),
        (Storage::Whitenoise, "WhiteNoise (static only)"@, "no media uploads"@),
        (Storage::Nginx, "nginx-served media"@, "self-hosted"@),
        (Storage::Nothing, "None"@, "Django defaults / local filesystem"@),
    ]
}

/// The choices of the `Storage` question, in display order.
pub fn storage_options() -> (res: Vec<Labeled<Storage>>)
    ensures
        table_view(res@) == storage_choices(),
{
    let v = vec![
        Labeled { value: Storage::AwsS3, label: "AWS S3", hint: "" },
        Labeled { value: Storage::Gcs, label: "Google Cloud Storage", hint: "" },
        Labeled { value: Storage::AzureBlob, label: "Azure Blob Storage", hint: "" },
        Labeled { value: Storage::Whitenoise, label: "WhiteNoise (static only)", hint: "no media uploads" },
        Labeled { value: Storage::Nginx, label: "nginx-served media", hint: "self-hosted" },
        Labeled { value: Storage::Nothing, label: "None", hint: "Django defaults / local filesystem" },
    ];
    assert(table_view(v@) =~= storage_choices());
    v
}

/// The choices of the `TypeChecker` question.
pub open spec fn typecheck_choices() -> Seq<(TypeChecker, Seq<char>, Seq<char>)> {
    seq![
        (TypeChecker::Mypy, "mypy"@, "with django-stubs"@),
        (TypeChecker::Pyright, "pyright"@, "Microsoft's, faster"@),
        (TypeChecker::Nothing, "None"@, ""@),
    ]
}

/// The choices of the `TypeChecker` question, in display order.
pub fn typecheck_options() -> (res: Vec<Labeled<TypeChecker>>)
    ensures
        table_view(res@) == typecheck_choices(),
{
    let v = vec![
        Labeled { value: TypeChecker::Mypy, label: "mypy", hint: "with django-stubs" },
        Labeled { value: TypeChecker::Pyright, label: "pyright", hint: "Microsoft's, faster" },
        Labeled { value: TypeChecker::Nothing, label: "None", hint: "" },
    ];
    assert(table_view(v@) =~= typecheck_choices());
    v
}

/// The choices of the `CiProvider` question.
pub open spec fn ci_choices() -> Seq<(CiProvider, Seq<char>, Seq<char>)> {
    seq![
        (CiProvider::GitHubActions, "GitHub Actions"@, "default"@),
        (CiProvider::GitLabCi, "GitLab CI"@, ""@),
        (CiProvider::Both, "Both (GitHub + GitLab)"@, ""@),
        (CiProvider::Nothing, "None"@, ""@),
    ]
}

/// The choices of the `CiProvider` question, in display order.
pub fn ci_options() -> (res: Vec<Labeled<CiProvider>>)
    ensures
        table_view(res@) == ci_choices(),
{
    let v = vec![
        Labeled { value: CiProvider::GitHubActions, label: "GitHub Actions", hint: "default" },
        Labeled { value: CiProvider::GitLabCi, label: "GitLab CI", hint: "" },
        Labeled { value: CiProvider::Both, label: "Both (GitHub + GitLab)", hint: "" },
        Labeled { value: CiProvider::Nothing, label: "None", hint: "" },
    ];
    assert(table_view(v@) =~= ci_choices());
    v
}

/// The choices of the `ContainerSetup` question.
pub open spec fn container_choices() -> Seq<(ContainerSetup, Seq<char>, Seq<char>)> {
    seq![
        (ContainerSetup::ComposeTraefik, "Docker Compose + Traefik + Let's Encrypt"@, "full prod"@),
        (ContainerSetup::ComposeOnly, "Docker Compose (no Traefik)"@, "behind your own LB"@),
        (ContainerSetup::Nothing, "None"@, "no containers"@),
    ]
}

/// The choices of the `ContainerSetup` question, in display order.
pub fn container_options() -> (res: Vec<Labeled<ContainerSetup>>)
    ensures
        table_view(res@) == container_choices(),
{
    let v = vec![
        Labeled { value: ContainerSetup::ComposeTraefik, label: "Docker Compose + Traefik + Let's Encrypt", hint: "full prod" },
        Labeled { value: ContainerSetup::ComposeOnly, label: "Docker Compose (no Traefik)", hint: "behind your own LB" },
        Labeled { value: ContainerSetup::Nothing, label: "None", hint: "no containers" },
    ];
    assert(table_view(v@) =~= container_choices());
    v
}

/// A choice value that can be told apart from the others of its type.
pub trait Choice: Copy {
    fn same(&self, other: &Self) -> (res: bool)
        ensures
            res == (*self == *other),
    ;
}

impl Choice for License {
    fn same(&self, other: &Self) -> (res: bool) {
        *self == *other
    }
}

impl Choice for PythonVersion {
    fn same(&self, other: &Self) -> (res: bool) {
        *self == *other
    }
}

impl Choice for DjangoVersion {
    fn same(&self, other: &Self) -> (res: bool) {
        *self == *other
    }
}

impl Choice for Mode {
    fn same(&self, other: &Self) -> (res: bool) {
        *self == *other
    }
}

impl Choice for RelationalDb {
    fn same(&self, other: &Self) -> (res: bool) {
        *self == *other
    }
}

impl Choice for GraphDb {
    fn same(&self, other: &Self) -> (res: bool) {
        *self == *other
    }
}

impl Choice for ApiLayer {
    fn same(&self, other: &Self) -> (res: bool) {
        *self == *other
    }
}

impl Choice for Frontend {
    fn same(&self, other: &Self) -> (res: bool) {
        *self == *other
    }
}

impl Choice for FrontendVariant {
    fn same(&self, other: &Self) -> (res: bool) {
        *self == *other
    }
}

impl Choice for RadixFlavor {
    fn same(&self, other: &Self) -> (res: bool) {
        *self == *other
    }
}

impl Choice for JsLanguage {
    fn same(&self, other: &Self) -> (res: bool) {
        *self == *other
    }
}

impl Choice for CssFramework {
    fn same(&self, other: &Self) -> (res: bool) {
        *self == *other
    }
}

impl Choice for CeleryBroker {
    fn same(&self, other: &Self) -> (res: bool) {
        *self == *other
    }
}

impl Choice for ProdEmail {
    fn same(&self, other: &Self) -> (res: bool) {
        *self == *other
    }
}

impl Choice for Storage {
    fn same(&self, other: &Self) -> (res: bool) {
        *self == *other
    }
}

impl Choice for TypeChecker {
    fn same(&self, other: &Self) -> (res: bool) {
        *self == *other
    }
}

impl Choice for CiProvider {
    fn same(&self, other: &Self) -> (res: bool) {
        *self == *other
    }
}

impl Choice for ContainerSetup {
    fn same(&self, other: &Self) -> (res: bool) {
        *self == *other
    }
}

impl Choice for VersionControl {
    fn same(&self, other: &Self) -> (res: bool) {
        *self == *other
    }
}

/// The choice values of a table.
pub open spec fn values_of<T>(t: Seq<(T, Seq<char>, Seq<char>)>) -> Seq<T> {
    t.map_values(|e: (T, Seq<char>, Seq<char>)| e.0)
}

/// The (label, hint) pairs of a table, as shown.
pub open spec fn labels_view<T>(t: Seq<(T, Seq<char>, Seq<char>)>) -> Seq<(Seq<char>, Seq<char>)> {
    t.map_values(|e: (T, Seq<char>, Seq<char>)| (e.1, e.2))
}

/// The text of (label, hint) pairs.
pub open spec fn shown(l: Seq<(&'static str, &'static str)>) -> Seq<(Seq<char>, Seq<char>)> {
    l.map_values(|p: (&'static str, &'static str)| (p.0@, p.1@))
}

/// The cursor position for `default` in a list of choice values: its first index, or 0.
pub open spec fn start_index<T>(values: Seq<T>, default: T) -> int {
    if exists|i: int| 0 <= i < values.len() && values[i] == default {
        choose|i: int|
            0 <= i < values.len() && values[i] == default && forall|j: int|
                0 <= j < i ==> values[j] != default
    } else {
        0
    }
}

/// The (label, hint) pairs of a table, in order.
pub fn labels_of<T: Copy>(t: &Vec<Labeled<T>>) -> (res: Vec<(&'static str, &'static str)>)
    ensures
        shown(res@) == labels_view(table_view(t@)),
{
    let mut out: Vec<(&'static str, &'static str)> = Vec::new();
    let mut i: usize = 0;
    while i < t.len()
        invariant
            i <= t.len(),
            out@.len() == i,
            forall|j: int|
                0 <= j < i ==> (#[trigger] out@[j]).0@ == t@[j].label@ && out@[j].1@ == t@[j].hint@,
        decreases t.len() - i,
    {
        out.push((t[i].label, t[i].hint));
        i = i + 1;
    }
    assert(shown(out@) =~= labels_view(table_view(t@)));
    out
}

/// Where the cursor of a single-select question starts: on the first choice whose value
/// is `default`, or on the first choice when none is.
pub fn start_in<T: Choice>(t: &Vec<Labeled<T>>, default: T) -> (res: usize)
    ensures
        res == start_index(values_of(table_view(t@)), default),
{
    let ghost vals = values_of(table_view(t@));
    let mut i: usize = 0;
    while i < t.len()
        invariant
            i <= t.len(),
            vals == values_of(table_view(t@)),
            vals.len() == t@.len(),
            forall|j: int| 0 <= j < i ==> vals[j] != default,
        decreases t.len() - i,
    {
        assert(vals[i as int] == t@[i as int].value);
        if t[i].value.same(&default) {
            proof {
                let k = choose|k: int|
                    0 <= k < vals.len() && vals[k] == default && forall|j: int|
                        0 <= j < k ==> vals[j] != default;
                if k < i {
                    assert(vals[k] != default);
                } else if k > i {
                    assert(vals[i as int] != default);
                }
            }
            return i;
        }
        i = i + 1;
    }
    0
}

/// A value listed at index `i` is where [`start_index`] puts the cursor for it, or an
/// earlier listing of the same value.
pub proof fn lemma_start_index<T>(values: Seq<T>, i: int, default: T)
    requires
        0 <= i < values.len(),
        values[i] == default,
    ensures
        0 <= start_index(values, default) <= i,
        values[start_index(values, default)] == default,
    decreases i,
{
    if exists|j: int| 0 <= j < i && values[j] == default {
        let j = choose|j: int| 0 <= j < i && values[j] == default;
        lemma_start_index(values, j, default);
    } else {
        assert(0 <= i < values.len() && values[i] == default && forall|j: int|
            0 <= j < i ==> values[j] != default);
        let k = start_index(values, default);
        assert(0 <= k < values.len() && values[k] == default && forall|j: int|
            0 <= j < k ==> values[j] != default);
        if k > i {
            assert(values[i] != default);
        }
    }
}

} // verus!
