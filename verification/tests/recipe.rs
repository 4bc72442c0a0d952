use django_bakery::options::{
    ApiLayer, CiProvider, Frontend, License, ProdEmail, PythonVersion, RadixFlavor, RelationalDb,
};
use django_bakery::recipe::Recipe;

#[test]
fn defaults_are_valid() {
    Recipe::defaults().validate().expect("defaults must validate");
}

#[test]
fn validate_rejects_bad_slug_start() {
    let mut r = Recipe::defaults();
    r.project_slug = "9bad".into();
    assert!(r.validate().is_err());
}

#[test]
fn validate_rejects_slug_with_dash() {
    let mut r = Recipe::defaults();
    r.project_slug = "has-dash".into();
    assert!(r.validate().is_err());
}

#[test]
fn validate_rejects_empty_slug() {
    let mut r = Recipe::defaults();
    r.project_slug = "".into();
    assert!(r.validate().is_err());
}

#[test]
fn validate_rejects_email_without_at() {
    let mut r = Recipe::defaults();
    r.author_email = "no-at-sign".into();
    assert!(r.validate().is_err());
}

#[test]
fn validate_requires_radix_flavor_when_react() {
    let mut r = Recipe::defaults();
    r.frontend = Frontend::React;
    r.radix_flavor = None;
    assert!(r.validate().is_err());

    r.radix_flavor = Some(RadixFlavor::Themes);
    assert!(r.validate().is_ok());
}

#[test]
fn db_helpers_match_recipe() {
    let mut r = Recipe::defaults();
    r.relational_db = RelationalDb::Postgres;
    assert!(r.is_postgres());
    assert!(!r.is_sqlite());
    assert!(!r.is_mysqlish());

    r.relational_db = RelationalDb::Sqlite;
    assert!(r.is_sqlite());
    assert!(!r.is_postgres());

    r.relational_db = RelationalDb::Mariadb;
    assert!(r.is_mysqlish());
}

#[test]
fn python_version_helpers() {
    assert_eq!(PythonVersion::Py314.dotted(), "3.14");
    assert_eq!(PythonVersion::Py314.short(), "314");
    assert_eq!(PythonVersion::Py313.short(), "313");
}

#[test]
fn validate_error_messages_follow_rule_order() {
    let mut r = Recipe::defaults();
    r.project_slug = "".into();
    r.author_email = "nobody".into();
    assert_eq!(r.validate().unwrap_err(), "project_slug must not be empty");

    let mut r = Recipe::defaults();
    r.project_slug = "9bad".into();
    assert_eq!(
        r.validate().unwrap_err(),
        "project_slug must start with an ASCII letter or underscore"
    );

    let mut r = Recipe::defaults();
    r.project_slug = "_ok_but-dash".into();
    assert_eq!(
        r.validate().unwrap_err(),
        "project_slug may only contain ASCII letters, digits, and underscores"
    );

    let mut r = Recipe::defaults();
    r.author_email = "nobody".into();
    assert_eq!(r.validate().unwrap_err(), "author_email must contain '@'");
}

#[test]
fn validate_rejects_multi_tenant_without_postgres() {
    let mut r = Recipe::defaults();
    r.multi_tenant = true;
    assert!(r.validate().is_ok());
    r.relational_db = RelationalDb::Sqlite;
    let err = r.validate().unwrap_err();
    assert!(err.starts_with("multi_tenant requires relational_db = 'postgres'"));
}

#[test]
fn validate_accepts_react_skeleton_without_radix() {
    let mut r = Recipe::defaults();
    r.frontend = Frontend::React;
    r.frontend_variant = django_bakery::options::FrontendVariant::Skeleton;
    r.radix_flavor = None;
    assert!(r.validate().is_ok());
}

#[test]
fn options_print_as_their_recipe_strings() {
    assert_eq!(License::Apache2.as_str(), "apache-2");
    assert_eq!(ApiLayer::GraphqlStrawberry.as_str(), "graphql-strawberry");
    assert_eq!(ApiLayer::Nothing.as_str(), "none");
    assert_eq!(CiProvider::GitHubActions.as_str(), "github-actions");
    assert_eq!(ProdEmail::AnymailSparkpost.as_str(), "anymail-sparkpost");
    assert_eq!(Frontend::all().len(), 7);
}
