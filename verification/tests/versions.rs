use django_bakery::recipe::Recipe;
use django_bakery::options::{
    ApiLayer, CssFramework, Frontend, FrontendVariant, RadixFlavor, RelationalDb,
};
use django_bakery::versions::{
    compat_check, defaults, is_prerelease, majors_match, relevant_packages, resolve,
    semver_safe, ResolveMode,
};

#[test]
fn defaults_are_well_formed() {
    for (k, v) in defaults().entries() {
        assert!(!v.is_empty(), "{k} has empty value");
        assert!(!v.starts_with('^'), "{k} = {v} must not include a semver range marker");
        assert!(!v.starts_with('~'), "{k} = {v} must not include a semver range marker");
        assert!(
            v.chars().next().is_some_and(|c| c.is_ascii_digit()),
            "{k} = {v} must start with a digit"
        );
    }
}

#[test]
fn defaults_have_no_known_phantom_versions() {
    let phantoms: &[(&str, &str)] = &[
        ("npm.vue", "3.6.0"),
        ("npm.@nuxtjs/tailwindcss", "7.0.0"),
        ("npm.@radix-ui/themes", "4.0.0"),
        ("npm.@radix-ui/colors", "4.0.0"),
        ("npm.vitest", "8.0.0"),
        ("npm.@vitest/coverage-v8", "8.0.0"),
        ("npm.@vitejs/plugin-react", "5.0.0"),
    ];
    let d = defaults();
    for (key, bad) in phantoms {
        if let Some(actual) = d.get(key) {
            assert_ne!(actual, *bad, "{key} re-acquired the phantom version {bad}");
        }
    }
}

#[test]
fn defaults_cover_every_package_requested_by_relevant_packages() {
    let d = defaults();
    let assert_covered = |r: &Recipe, label: &str| {
        let wanted = relevant_packages(r);
        for pkg in wanted.pypi {
            assert!(
                d.contains_key(&format!("py.{pkg}")),
                "defaults missing py.{pkg} (matrix variant: {label})"
            );
        }
        for pkg in wanted.npm {
            assert!(
                d.contains_key(&format!("npm.{pkg}")),
                "defaults missing npm.{pkg} (matrix variant: {label})"
            );
        }
    };
    assert_covered(&Recipe::defaults(), "defaults");
    for api in [
        ApiLayer::Ninja,
        ApiLayer::Drf,
        ApiLayer::GraphqlStrawberry,
        ApiLayer::GraphqlGraphene,
        ApiLayer::Nothing,
    ] {
        let mut r = Recipe::defaults();
        r.api_layer = api;
        assert_covered(&r, &format!("api_layer={}", api.as_str()));
    }
    for (frontend, radix) in [
        (Frontend::HtmxAlpine, None),
        (Frontend::React, Some(RadixFlavor::Themes)),
        (Frontend::React, Some(RadixFlavor::Primitives)),
        (Frontend::Nuxt, None),
        (Frontend::Vue, None),
        (Frontend::Next, None),
    ] {
        let mut r = Recipe::defaults();
        r.frontend = frontend;
        r.frontend_variant = FrontendVariant::Full;
        r.radix_flavor = radix;
        assert_covered(&r, &format!("frontend={}", frontend.as_str()));
    }
    for css in [CssFramework::Tailwind, CssFramework::Bootstrap, CssFramework::Nothing] {
        let mut r = Recipe::defaults();
        r.css_framework = css;
        assert_covered(&r, &format!("css={}", css.as_str()));
    }
    {
        let mut r = Recipe::defaults();
        r.multi_tenant = true;
        r.relational_db = RelationalDb::Postgres;
        assert_covered(&r, "multi_tenant=true");
    }
    {
        let mut r = Recipe::defaults();
        r.use_celery = true;
        assert_covered(&r, "use_celery=true");
    }
    {
        let mut r = Recipe::defaults();
        r.use_observability = true;
        assert_covered(&r, "use_observability=true");
    }
    {
        let mut r = Recipe::defaults();
        r.use_sentry = true;
        assert_covered(&r, "use_sentry=true");
    }
}

#[test]
fn prerelease_detection() {
    for v in ["1.0a1", "2.5b2", "3.1rc1", "4.0.dev0", "1.0.0-rc.1", "1.0.0-alpha.2", "2.0B1", "5.0c"] {
        assert!(is_prerelease(v), "{v} is a pre-release");
    }
    for v in ["1.0.0", "1.0.0+abi3", "1.0.0.post1+ubuntu.alpha", "6.0.0", "package-name", "a1"] {
        assert!(!is_prerelease(v), "{v} is stable");
    }
}

#[test]
fn semver_safe_keeps_three_numeric_fields() {
    assert_eq!(semver_safe("6.0.0"), "6.0.0");
    assert_eq!(semver_safe("4.0"), "4.0.0");
    assert_eq!(semver_safe("5"), "5.0.0");
    assert_eq!(semver_safe("3.2.4.post1"), "3.2.4");
    assert_eq!(semver_safe("1.0rc1"), "1.0.0");
    assert_eq!(semver_safe("6."), "6..0");
    assert_eq!(semver_safe("v1"), ".0.0");
}

#[test]
fn majors_match_compares_first_field() {
    assert!(majors_match("6.0.0", "6.1"));
    assert!(!majors_match("6.0.0", "5.2.1"));
    assert!(majors_match("", ""));
    assert!(!majors_match("10", "1.0"));
}

#[test]
fn offline_resolution_is_the_bundled_table() {
    let r = Recipe::defaults();
    let m = resolve(&r, ResolveMode::Offline, &vec![Some("99.0".into())], &vec![]);
    assert_eq!(m.get("py.django").as_deref(), Some("6.0.0"));
    assert_eq!(m.len(), defaults().len());
}

#[test]
fn online_resolution_takes_stable_answers_only() {
    let r = Recipe::defaults();
    let wanted = relevant_packages(&r);
    assert_eq!(wanted.pypi[0], "django");
    let mut pypi: Vec<Option<String>> = vec![None; wanted.pypi.len()];
    pypi[0] = Some("6.1.2".into());
    pypi[1] = Some("1.0rc1".into());
    let mut npm: Vec<Option<String>> = vec![None; wanted.npm.len()];
    npm[0] = Some("2.1.0-beta.1".into());
    let m = resolve(&r, ResolveMode::Online, &pypi, &npm);
    assert_eq!(m.get("py.django").as_deref(), Some("6.1.2"));
    assert_eq!(m.get("py.django-environ").as_deref(), Some("0.12.0"));
    let npm_key = format!("npm.{}", wanted.npm[0]);
    assert_eq!(m.get(&npm_key), defaults().get(&npm_key));
    npm[0] = Some("2.1.0".into());
    let m = resolve(&r, ResolveMode::Online, &pypi, &npm);
    assert_eq!(m.get(&npm_key).as_deref(), Some("2.1.0"));
    assert_eq!(m.len(), defaults().len());
}

#[test]
fn compat_check_flags_old_and_mismatched_pins() {
    let r = Recipe::defaults();
    assert!(compat_check(&r, &defaults()).is_empty());

    let mut m = defaults();
    m.insert("py.django".into(), "5.2.1".into());
    m.insert("py.celery".into(), "5.3.0".into());
    let w = compat_check(&r, &m);
    assert_eq!(
        w,
        vec![
            "Django 5.2.1 is below the 6.x baseline django-bakery targets; some templates may use 6.x-only APIs".to_string(),
            "django-stubs 6.0.0 may not match Django 5.2.1; check the django-stubs release notes".to_string(),
            "Celery 5.3.0 is below 5.4; Django 6 async ORM compatibility requires 5.4+".to_string(),
        ]
    );

    let mut r2 = Recipe::defaults();
    r2.use_celery = false;
    assert_eq!(compat_check(&r2, &m).len(), 2);

    let mut m2 = defaults();
    m2.insert("py.django".into(), "06.0".into());
    let w2 = compat_check(&r, &m2);
    assert_eq!(w2.len(), 1);
    assert!(w2[0].starts_with("django-stubs 6.0.0 may not match Django 06.0"));
}

#[test]
fn relevant_packages_follow_the_recipe() {
    let mut r = Recipe::defaults();
    r.frontend = Frontend::React;
    r.radix_flavor = Some(RadixFlavor::Primitives);
    r.css_framework = CssFramework::Bootstrap;
    r.api_layer = ApiLayer::Drf;
    r.relational_db = RelationalDb::Sqlite;
    let w = relevant_packages(&r);
    assert_eq!(
        w.npm,
        vec![
            "react",
            "react-dom",
            "vite",
            "typescript",
            "@vitejs/plugin-react",
            "@radix-ui/react-dialog",
            "tailwindcss",
            "@tailwindcss/vite",
            "bootstrap"
        ]
    );
    assert!(w.pypi.contains(&"drf-spectacular"));
    assert!(!w.pypi.contains(&"psycopg"));
}

#[test]
fn version_map_keeps_keys_sorted_and_unique() {
    let mut m = django_bakery::VersionMap::new();
    m.insert("py.b".into(), "1".into());
    m.insert("npm.a".into(), "2".into());
    m.insert("py.b".into(), "3".into());
    let e = m.entries();
    assert_eq!(e, vec![("npm.a".to_string(), "2".to_string()), ("py.b".to_string(), "3".to_string())]);
}

#[test]
fn registry_addresses() {
    assert_eq!(
        django_bakery::versions::pypi_url("django-allauth"),
        "https://pypi.org/pypi/django-allauth/json"
    );
    assert_eq!(
        django_bakery::versions::npm_url("@radix-ui/themes"),
        "https://registry.npmjs.org/@radix-ui/themes/latest"
    );
}

#[test]
fn semver_safe_gives_three_fields_and_is_idempotent() {
    for v in ["3.1rc1", "1.2.3.4", "5", "", "2.0.dev1", "10.20.30", "7.x"] {
        let out = semver_safe(v);
        assert_eq!(out.matches('.').count(), 2, "{v} -> {out}");
        assert!(out.chars().all(|c| c.is_ascii_digit() || c == '.'));
        assert_eq!(semver_safe(&out), out);
    }
    assert_eq!(semver_safe("3.1rc1"), "3.1.0");
    assert_eq!(semver_safe("1.2.3.4"), "1.2.3");
    assert_eq!(semver_safe("5"), "5.0.0");
}
