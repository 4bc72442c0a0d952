use django_bakery::error::Error;
use django_bakery::recipe::Recipe;
use django_bakery::render::{
    check_recipe, compat_gate, extension_of, plan_entry, plan_target, project_root,
    strip_jinja_ext, strip_skip_lines, wants_html_escape, PlanKind, RenderOptions,
    TargetAction,
};
use django_bakery::ResolveMode;

const CWD: &str = "/srv";

#[test]
fn render_options_defaults() {
    let o = RenderOptions::new("out");
    assert_eq!(o.output_dir, "out");
    assert!(!o.force && o.run_hooks && o.git_init && !o.bootstrap && !o.strict_compat);
    assert_eq!(o.version_mode, ResolveMode::Online);
}

#[test]
fn jinja_suffix_and_dotfile_shadow_names() {
    assert_eq!(strip_jinja_ext("settings.py.j2"), "settings.py");
    assert_eq!(strip_jinja_ext("_dot_gitignore"), ".gitignore");
    assert_eq!(strip_jinja_ext("_dot_env.example.j2"), ".env.example");
    assert_eq!(strip_jinja_ext("README.md"), "README.md");
    assert_eq!(strip_jinja_ext("_dot_"), ".");
}

#[test]
fn skip_lines_are_removed() {
    let out = strip_skip_lines("a\n  __SKIP__  \nb\n__SKIP__");
    assert_eq!(out, "a\nb\n");
    assert_eq!(strip_skip_lines("keep __SKIP__ inline\n"), "keep __SKIP__ inline\n");
}

#[test]
fn skip_lines_leave_the_next_line_indented() {
    assert_eq!(strip_skip_lines("if x:\n__SKIP__\n    y = 1\n"), "if x:\n    y = 1\n");
    assert_eq!(strip_skip_lines("a\r\n\t__SKIP__\r\n\nb"), "a\r\n\nb");
    assert_eq!(strip_skip_lines("__SKIP__"), "");
    assert_eq!(strip_skip_lines("x__SKIP__\n__SKIP__ y\n"), "x__SKIP__\n__SKIP__ y\n");
    assert_eq!(strip_skip_lines(""), "");
}

#[test]
fn entries_are_planned() {
    let root = "out/app";
    let skip = plan_entry(true, "__SKIP__", "", root, CWD).unwrap();
    assert_eq!(skip.kind, PlanKind::Skip);
    let blank = plan_entry(false, "   ", "config", root, CWD).unwrap();
    assert_eq!(blank.kind, PlanKind::Skip);

    let dir = plan_entry(true, "config", "", root, CWD).unwrap();
    assert_eq!(dir.kind, PlanKind::MakeDir);
    assert_eq!(dir.rel, "config");
    assert_eq!(dir.abs, "out/app/config");

    let f = plan_entry(false, "base.py.j2", "config/settings", root, CWD).unwrap();
    assert_eq!(f.kind, PlanKind::RenderFile);
    assert_eq!(f.rel, "config/settings/base.py");
    assert_eq!(f.abs, "out/app/config/settings/base.py");

    let copy = plan_entry(false, "app.js", "static", root, CWD).unwrap();
    assert_eq!(copy.kind, PlanKind::CopyFile);
    let png = plan_entry(false, "logo.PNG.j2", "static", root, CWD).unwrap();
    assert_eq!(png.kind, PlanKind::CopyFile);
    assert_eq!(png.rel, "static/logo.PNG");

    let dotfile = plan_entry(false, "_dot_gitignore.j2", "", root, CWD).unwrap();
    assert_eq!(dotfile.rel, ".gitignore");
    assert_eq!(dotfile.kind, PlanKind::RenderFile);

    match plan_entry(false, "../../etc/passwd", "", root, CWD) {
        Err(Error::InvalidRecipe(m)) => assert!(m.contains("resolves outside the target")),
        other => panic!("unexpected {other:?}"),
    }
}

#[test]
fn extensions_are_lowercased_and_dotfiles_have_none() {
    assert_eq!(extension_of("a/b/Logo.PNG"), "png");
    assert_eq!(extension_of(".gitignore"), "");
    assert_eq!(extension_of("archive.tar.gz"), "gz");
    assert_eq!(extension_of("dir/.."), "");
}

#[test]
fn html_templates_get_escaping() {
    assert!(wants_html_escape("templates/base.html"));
    assert!(wants_html_escape("home.html.j2"));
    assert!(!wants_html_escape("settings.py.j2"));
}

#[test]
fn target_directory_rules() {
    assert_eq!(plan_target("t", false, false, false).unwrap(), TargetAction::Create);
    assert_eq!(plan_target("t", true, true, false).unwrap(), TargetAction::UseAsIs);
    assert_eq!(plan_target("t", true, false, true).unwrap(), TargetAction::Recreate);
    match plan_target("t", true, false, false) {
        Err(e) => assert_eq!(
            e.message(),
            "output directory t already exists and is not empty; pass --force to overwrite"
        ),
        Ok(a) => panic!("unexpected {a:?}"),
    }
}

#[test]
fn strict_compat_turns_warnings_into_errors() {
    let w = vec!["one".to_string(), "two".to_string()];
    assert!(compat_gate(false, &w).is_ok());
    assert!(compat_gate(true, &vec![]).is_ok());
    match compat_gate(true, &w) {
        Err(Error::InvalidRecipe(m)) => {
            assert_eq!(m, "compatibility check failed:\n  - one\n  - two")
        }
        other => panic!("unexpected {other:?}"),
    }
}

#[test]
fn malicious_recipe_slug_with_traversal_is_rejected_by_validator() {
    let mut r = Recipe::defaults();
    r.project_slug = "../etc/passwd".into();
    assert!(check_recipe(&r).is_err(), "validator must reject path-traversal in slug");
}

#[test]
fn project_root_joins_output_and_slug() {
    let r = Recipe::defaults();
    assert_eq!(project_root(&RenderOptions::new("."), &r), "./my_awesome_app");
}

#[test]
fn error_messages() {
    let e = Error::Io { path: Some("a\"b".into()), message: "denied".into() };
    assert_eq!(e.message(), "io error at Some(\"a\\\"b\"): denied");
    let e = Error::Io { path: None, message: "x".into() };
    assert_eq!(e.message(), "io error at None: x");
    assert_eq!(Error::RecipeParse("bad".into()).message(), "recipe parse error: bad");
}

#[test]
fn prepare_render_checks_the_recipe_first() {
    let mut r = Recipe::defaults();
    r.project_slug = "../etc/passwd".to_string();
    let versions = django_bakery::versions::defaults();
    match django_bakery::render::prepare_render(&r, &RenderOptions::new("out"), &versions) {
        Err(Error::InvalidRecipe(m)) => assert!(m.contains("project_slug")),
        Err(e) => panic!("unexpected error {e:?}"),
        Ok(_) => panic!("an invalid recipe must be refused"),
    }
}

#[test]
fn prepare_render_sets_the_root_and_renders_with_the_recipe() {
    let r = Recipe::defaults();
    let versions = django_bakery::versions::defaults();
    let setup = match django_bakery::render::prepare_render(&r, &RenderOptions::new("out"), &versions) {
        Ok(s) => s,
        Err(e) => panic!("defaults must prepare: {e:?}"),
    };
    assert_eq!(setup.project_root, "out/my_awesome_app");
    assert!(setup.compat_warnings.is_empty());
    assert_eq!(
        setup.renderer.render_str("{{ bakery.project_slug }}").unwrap(),
        "my_awesome_app"
    );
    assert_eq!(
        setup.renderer.render_str("{{ bakery.versions.django }}").unwrap(),
        versions.get("py.django").unwrap()
    );
}

#[test]
fn prepare_render_with_strict_compat_refuses_warnings() {
    let r = Recipe::defaults();
    let mut versions = django_bakery::versions::defaults();
    versions.insert("py.django".to_string(), "5.2.0".to_string());
    let mut opts = RenderOptions::new("out");
    assert!(django_bakery::render::prepare_render(&r, &opts, &versions).is_ok());
    opts.strict_compat = true;
    match django_bakery::render::prepare_render(&r, &opts, &versions) {
        Err(Error::InvalidRecipe(m)) => assert!(m.starts_with("compatibility check failed:\n  - ")),
        Err(e) => panic!("unexpected error {e:?}"),
        Ok(_) => panic!("strict compatibility must refuse warnings"),
    }
}
