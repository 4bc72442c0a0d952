use django_bakery::cli::{
    addon_flags, command_options, log_level, next_steps, recipe_format, stage_rail,
    summary_rows, RecipeFormat, StageMark,
};
use django_bakery::options::{ContainerSetup, RelationalDb};
use django_bakery::recipe::Recipe;
use django_bakery::versions::ResolveMode;

#[test]
fn recipe_format_goes_by_the_extension_in_any_case() {
    assert_eq!(recipe_format("recipe.toml"), Ok(RecipeFormat::Toml));
    assert_eq!(recipe_format("conf/Recipe.TOML"), Ok(RecipeFormat::Toml));
    assert_eq!(recipe_format("./recipe.json"), Ok(RecipeFormat::Json));
    assert_eq!(recipe_format("a.b/recipe.Json"), Ok(RecipeFormat::Json));
}

#[test]
fn recipe_format_refuses_other_extensions() {
    assert_eq!(
        recipe_format("recipe.yaml"),
        Err("unknown recipe format: .yaml (expected .toml or .json)".to_string())
    );
    assert_eq!(
        recipe_format("recipe"),
        Err("unknown recipe format: . (expected .toml or .json)".to_string())
    );
    assert_eq!(
        recipe_format(".toml"),
        Err("unknown recipe format: . (expected .toml or .json)".to_string())
    );
}

#[test]
fn log_levels_by_verbosity() {
    assert_eq!(log_level(0), "warn");
    assert_eq!(log_level(1), "info");
    assert_eq!(log_level(2), "debug");
    assert_eq!(log_level(3), "trace");
    assert_eq!(log_level(200), "trace");
}

#[test]
fn command_options_follow_the_flags() {
    let o = command_options("./out", true, true, true, true, true);
    assert_eq!(o.output_dir, "./out");
    assert!(o.force && !o.git_init && o.bootstrap && o.strict_compat && o.run_hooks);
    assert_eq!(o.version_mode, ResolveMode::Offline);
    let o = command_options(".", false, false, false, false, false);
    assert!(!o.force && o.git_init && !o.bootstrap && !o.strict_compat);
    assert_eq!(o.version_mode, ResolveMode::Online);
}

#[test]
fn summary_rows_of_the_defaults() {
    let rows = summary_rows(&Recipe::defaults());
    assert_eq!(
        rows,
        vec![
            ("project", "My Awesome App".to_string()),
            ("slug", "my_awesome_app".to_string()),
            ("stack", "Python 3.14 · Django 6.0 · postgres · ninja".to_string()),
            ("frontend", "htmx-alpine".to_string()),
        ]
    );
}

#[test]
fn addon_flags_follow_the_recipe() {
    let mut r = Recipe::defaults();
    r.use_sentry = false;
    assert_eq!(
        addon_flags(&r),
        vec![
            ("celery ", true),
            ("sentry ", false),
            ("obs ", true),
            ("precommit ", true),
            ("mailpit", true),
        ]
    );
}

#[test]
fn next_steps_with_compose() {
    assert_eq!(
        next_steps(&Recipe::defaults()),
        vec![
            "cd my_awesome_app".to_string(),
            "uv sync && uv run pre-commit install".to_string(),
            "docker compose -f compose.local.yml up --build".to_string(),
        ]
    );
}

#[test]
fn next_steps_without_containers() {
    let mut r = Recipe::defaults();
    r.container_setup = ContainerSetup::Nothing;
    r.use_pre_commit = false;
    r.relational_db = RelationalDb::Sqlite;
    assert_eq!(
        next_steps(&r),
        vec![
            "cd my_awesome_app".to_string(),
            "uv sync".to_string(),
            "uv run python manage.py makemigrations users".to_string(),
            "uv run python manage.py migrate".to_string(),
            "uv run python manage.py createsuperuser".to_string(),
            "uv run python manage.py runserver".to_string(),
        ]
    );
}

#[test]
fn next_steps_for_a_multi_tenant_project_without_containers() {
    let mut r = Recipe::defaults();
    r.container_setup = ContainerSetup::Nothing;
    r.multi_tenant = true;
    let steps = next_steps(&r);
    assert_eq!(steps.len(), 6);
    assert_eq!(steps[2], "uv run python manage.py makemigrations users tenants");
    assert_eq!(steps[3], "uv run python manage.py migrate_schemas --shared");
    assert_eq!(steps[4], "uv run python manage.py bootstrap_public_tenant");
    assert_eq!(steps[5], "uv run python manage.py runserver");
}

#[test]
fn the_stage_rail_marks_done_current_and_upcoming() {
    assert_eq!(
        stage_rail(2),
        vec![
            ("Project basics", StageMark::Done),
            ("Stack", StageMark::Current),
            ("Production add-ons", StageMark::Upcoming),
        ]
    );
    assert_eq!(stage_rail(1)[0].1, StageMark::Current);
    assert_eq!(stage_rail(3)[2].1, StageMark::Current);
    assert!(stage_rail(4).iter().all(|(_, m)| *m == StageMark::Done));
}
