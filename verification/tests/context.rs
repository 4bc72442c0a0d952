use django_bakery::context::{
    current_year, engine_extras, recipe_fields, resolve_or_gen, year_from_unix_secs, Context,
    CtxValue,
};
use django_bakery::options::{ApiLayer, ContainerSetup, Frontend, RelationalDb};
use django_bakery::recipe::Recipe;
use django_bakery::secret_key;

fn get<'a>(block: &'a [(String, CtxValue)], key: &str) -> Option<&'a CtxValue> {
    block.iter().rev().find(|(k, _)| k == key).map(|(_, v)| v)
}

fn flag(block: &[(String, CtxValue)], key: &str) -> Option<bool> {
    match get(block, key) {
        Some(CtxValue::Flag(b)) => Some(*b),
        _ => None,
    }
}

fn text<'a>(block: &'a [(String, CtxValue)], key: &str) -> Option<&'a str> {
    match get(block, key) {
        Some(CtxValue::Text(s)) => Some(s.as_str()),
        _ => None,
    }
}

#[test]
fn recipe_fields_exposes_computed_booleans() {
    let r = Recipe::defaults();
    let block = recipe_fields(&r);
    assert_eq!(flag(&block, "is_postgres"), Some(true));
    assert_eq!(flag(&block, "is_sqlite"), Some(false));
    assert_eq!(flag(&block, "has_api"), Some(true));
    assert_eq!(flag(&block, "wants_docker"), Some(true));
    assert_eq!(flag(&block, "wants_traefik"), Some(true));
    assert_eq!(flag(&block, "has_frontend_spa"), Some(false));
}

#[test]
fn recipe_fields_flips_booleans_on_minimal_recipe() {
    let mut r = Recipe::defaults();
    r.relational_db = RelationalDb::Sqlite;
    r.api_layer = ApiLayer::Nothing;
    r.frontend = Frontend::Nothing;
    r.container_setup = ContainerSetup::Nothing;
    let block = recipe_fields(&r);
    assert_eq!(flag(&block, "is_postgres"), Some(false));
    assert_eq!(flag(&block, "is_sqlite"), Some(true));
    assert_eq!(flag(&block, "has_api"), Some(false));
    assert_eq!(flag(&block, "wants_docker"), Some(false));
    assert_eq!(flag(&block, "wants_traefik"), Some(false));
}

#[test]
fn engine_extras_include_secret_key_and_year() {
    let r = Recipe::defaults();
    let block = engine_extras(&r).unwrap();
    let key = text(&block, "django_secret_key").unwrap();
    assert_eq!(key.len(), 50);
    let pg = text(&block, "postgres_password").unwrap();
    assert_eq!(pg.len(), 40);
    let year = match get(&block, "year") {
        Some(CtxValue::Number(y)) => *y,
        _ => panic!("year missing"),
    };
    assert!(year >= 2024 && year <= 2100, "year sanity check: {year}");
}

#[test]
fn recipe_fields_exposes_slug_variants() {
    let mut r = Recipe::defaults();
    r.project_slug = "my_cool_app".into();
    let block = recipe_fields(&r);
    assert_eq!(text(&block, "project_module"), Some("my_cool_app"));
    assert_eq!(text(&block, "project_kebab"), Some("my-cool-app"));
    assert_eq!(text(&block, "project_camel"), Some("MyCoolApp"));
    assert_eq!(text(&block, "project_shouty"), Some("MY_COOL_APP"));
}

#[test]
fn secret_key_alphabet_is_url_safe() {
    let key = secret_key(128).unwrap();
    assert_eq!(key.len(), 128);
    for c in key.chars() {
        assert!(
            c.is_ascii_alphanumeric() || c == '-' || c == '_',
            "secret_key contains unsafe character {c:?} in {key:?}"
        );
    }
}

#[test]
fn secret_key_has_no_shell_special_chars() {
    let key = secret_key(256).unwrap();
    for forbidden in ['!', '@', '#', '$', '%', '^', '&', '*', '(', ')', '"', '\'', '`', '\\'] {
        assert!(
            !key.contains(forbidden),
            "secret_key {key:?} contains forbidden char {forbidden:?}"
        );
    }
}

#[test]
fn credentials_come_from_the_recipe_unless_blank() {
    let mut r = Recipe::defaults();
    r.db_password = "hunter2hunter2".into();
    r.superuser_email = "  ".into();
    r.flower_user = "ops".into();
    r.admin_url_suffix = "".into();
    r.allowed_hosts = "example.com,www.example.com".into();
    let block = engine_extras(&r).unwrap();
    assert_eq!(text(&block, "db_password"), Some("hunter2hunter2"));
    assert_eq!(text(&block, "postgres_password"), Some("hunter2hunter2"));
    assert_eq!(text(&block, "superuser_email"), Some("you@example.com"));
    assert_eq!(text(&block, "flower_user"), Some("ops"));
    assert_eq!(text(&block, "allowed_hosts"), Some("example.com,www.example.com"));
    assert_eq!(text(&block, "bakery_version"), Some("0.1.0"));
    let suffix = text(&block, "admin_url_suffix").unwrap();
    assert_eq!(suffix.len(), 16);
    assert!(!suffix.chars().any(|c| c.is_ascii_uppercase()));
    assert_eq!(text(&block, "flower_password").unwrap().len(), 24);
    assert_eq!(text(&block, "traefik_basic_auth").unwrap().len(), 32);
}

#[test]
fn blank_defaults_generate_fresh_credentials() {
    let r = Recipe::defaults();
    let block = engine_extras(&r).unwrap();
    let db = text(&block, "db_password").unwrap();
    assert_eq!(db.len(), 40);
    assert_eq!(text(&block, "postgres_password"), Some(db));
    assert_eq!(text(&block, "flower_user"), Some("flower"));
    assert_eq!(text(&block, "superuser_email"), Some("you@example.com"));
}

#[test]
fn resolve_or_gen_prefers_the_given_value() {
    assert_eq!(resolve_or_gen("keep me", 8).unwrap(), "keep me");
    assert_eq!(resolve_or_gen(" \t", 8).unwrap().len(), 8);
}

#[test]
fn year_arithmetic() {
    assert_eq!(year_from_unix_secs(0), 1970);
    assert_eq!(year_from_unix_secs(1_725_029_869), 2024);
    // The year is approximated as days / 365.2425, so the first hours of 2024 still read 2023.
    assert_eq!(year_from_unix_secs(1_704_067_200), 2023);
    assert_eq!(year_from_unix_secs(1_704_153_600), 2024);
    assert!(current_year() >= 2024);
}

#[test]
fn context_puts_versions_last_with_short_aliases() {
    let r = Recipe::defaults();
    let ctx = Context::build(&r).unwrap();
    let (k, v) = ctx.last().unwrap();
    assert_eq!(k, "versions");
    match v {
        CtxValue::Table(t) => {
            let find = |key: &str| t.iter().rev().find(|(k, _)| k == key).map(|(_, v)| v.clone());
            assert_eq!(find("py.django").as_deref(), Some("6.0.0"));
            assert_eq!(find("django").as_deref(), Some("6.0.0"));
            assert_eq!(find("htmx.org").as_deref(), Some("2.0.4"));
            assert_eq!(find("vue").as_deref(), Some("3.5.35"));
        }
        _ => panic!("versions must be a table"),
    }
    assert_eq!(text(&ctx, "frontend_origin"), Some("http://localhost:0"));
    assert_eq!(text(&ctx, "radix_flavor"), Some("none"));
}
