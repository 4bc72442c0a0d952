use django_bakery::options::{
    CeleryBroker, ContainerSetup, Frontend, FrontendVariant, RadixFlavor, RelationalDb,
};
use django_bakery::recipe::Recipe;
use django_bakery::wizard::{Answer, Banner, Prompt, TextRule, Turn, Wizard, QUESTION_COUNT};

/// The answer that accepts a prompt's default.
fn default_answer(p: &Prompt) -> Answer {
    match p {
        Prompt::Text { default, .. } => Answer::Text(default.clone()),
        Prompt::Confirm { default, .. } => Answer::Confirm(*default),
        Prompt::Select { start, .. } => Answer::Choice(*start),
    }
}

fn message(p: &Prompt) -> &'static str {
    match p {
        Prompt::Text { message, .. } => *message,
        Prompt::Confirm { message, .. } => *message,
        Prompt::Select { message, .. } => *message,
    }
}

/// Runs the questionnaire, answering `pick` where it returns an answer and accepting the
/// default elsewhere; returns the recipe and the messages of the questions asked.
fn run(preset: Recipe, pick: &dyn Fn(&str) -> Option<Answer>) -> (Recipe, Vec<&'static str>) {
    let mut w = Wizard::new(preset);
    let mut asked = Vec::new();
    loop {
        match w.turn().unwrap() {
            Turn::Finished => break,
            Turn::Skip { .. } => w.skip().expect("skip"),
            Turn::Ask { prompt, .. } => {
                let m = message(&prompt);
                asked.push(m);
                let a = pick(m).unwrap_or_else(|| default_answer(&prompt));
                w.answer(a).expect("answer accepted");
            }
        }
    }
    (w.finish(), asked)
}

fn select_of(w: &Wizard) -> (Vec<(&'static str, &'static str)>, usize) {
    match w.turn().unwrap() {
        Turn::Ask { prompt: Prompt::Select { labels, start, .. }, .. } => (labels, start),
        _ => panic!("expected a single-select question"),
    }
}

fn answer_defaults_until(w: &mut Wizard, msg: &str) {
    loop {
        match w.turn().unwrap() {
            Turn::Ask { prompt, .. } => {
                if message(&prompt) == msg {
                    return;
                }
                w.answer(default_answer(&prompt)).unwrap();
            }
            Turn::Skip { .. } => w.skip().unwrap(),
            Turn::Finished => panic!("no question {msg}"),
        }
    }
}

#[test]
fn accepting_every_default_keeps_the_preset() {
    let (r, asked) = run(Recipe::defaults(), &|_| None);
    let d = Recipe::defaults();
    assert_eq!(r.project_name, d.project_name);
    assert_eq!(r.project_slug, "my_awesome_app");
    assert_eq!(r.author_email, d.author_email);
    assert_eq!(r.license, d.license);
    assert_eq!(r.relational_db, d.relational_db);
    assert_eq!(r.frontend, d.frontend);
    assert_eq!(r.frontend_variant, FrontendVariant::Full);
    assert_eq!(r.radix_flavor, None);
    assert_eq!(r.js_language, d.js_language);
    // HTMX is no SPA: the JS testing question is skipped and leaves it off.
    assert!(!r.js_testing);
    assert_eq!(r.celery_broker, CeleryBroker::Redis);
    assert_eq!(r.container_setup, d.container_setup);
    assert!(!r.multi_tenant);
    assert_eq!(r.timezone, "UTC");
    assert_eq!(r.db_password.len(), 40);
    assert_eq!(r.superuser_email, "you@example.com");
    assert_eq!(r.superuser_password.len(), 32);
    assert_eq!(r.flower_user, "flower");
    assert_eq!(r.flower_password.len(), 24);
    assert_eq!(r.redis_password.len(), 32);
    assert_eq!(r.admin_url_suffix.len(), 16);
    assert!(r.admin_url_suffix.chars().all(|c| !c.is_ascii_uppercase()));
    assert!(r.validate().is_ok());
    assert!(!asked.contains(&"Frontend variant"));
    assert!(!asked.contains(&"Radix flavor"));
    assert!(asked.contains(&"Celery broker"));
    assert!(asked.contains(&"Multi-tenant via django-tenants (PG-schema-per-tenant)?"));
    assert!(asked.len() < QUESTION_COUNT);
}

#[test]
fn the_slug_default_follows_the_answered_name() {
    let mut w = Wizard::new(Recipe::defaults());
    w.answer(Answer::Text("Hello World App".to_string())).unwrap();
    match w.turn().unwrap() {
        Turn::Ask { prompt: Prompt::Text { message, default, rule, .. }, banner } => {
            assert_eq!(message, "Project slug");
            assert_eq!(default, "hello_world_app");
            assert_eq!(rule, TextRule::Slug);
            assert_eq!(banner, None);
        }
        _ => panic!("expected the slug question"),
    }
}

#[test]
fn banners_mark_the_stages_and_the_credentials() {
    let mut w = Wizard::new(Recipe::defaults());
    let mut seen = Vec::new();
    loop {
        match w.turn().unwrap() {
            Turn::Finished => break,
            Turn::Skip { banner } => {
                if let Some(b) = banner {
                    seen.push(b);
                }
                w.skip().unwrap();
            }
            Turn::Ask { banner, prompt } => {
                if let Some(b) = banner {
                    seen.push(b);
                }
                w.answer(default_answer(&prompt)).unwrap();
            }
        }
    }
    assert_eq!(
        seen,
        vec![Banner::Stage(1), Banner::Stage(2), Banner::Stage(3), Banner::Credentials]
    );
}

#[test]
fn invalid_answers_are_refused_and_change_nothing() {
    let mut w = Wizard::new(Recipe::defaults());
    assert_eq!(w.answer(Answer::Text("   ".to_string())), Err("required"));
    assert_eq!(w.answer(Answer::Confirm(true)), Err("expected a text answer"));
    w.answer(Answer::Text("Shop".to_string())).unwrap();
    assert_eq!(w.answer(Answer::Text("9shop".to_string())), Err("invalid slug"));
    assert_eq!(w.answer(Answer::Text("my-shop".to_string())), Err("invalid slug"));
    w.answer(Answer::Text("shop".to_string())).unwrap();
    w.answer(Answer::Text("desc".to_string())).unwrap();
    w.answer(Answer::Text("me".to_string())).unwrap();
    assert_eq!(w.answer(Answer::Text("nobody".to_string())), Err("must contain '@'"));
    assert_eq!(w.answer(Answer::Text("a@b".to_string())), Err("must contain '@'"));
    w.answer(Answer::Text("a@bc".to_string())).unwrap();
    w.answer(Answer::Text("shop.example".to_string())).unwrap();
    // License: a choice past the end of the list.
    assert_eq!(w.answer(Answer::Choice(4)), Err("choice out of range"));
    assert_eq!(w.answer(Answer::Text("mit".to_string())), Err("expected a choice"));
    assert!(w.skip().is_err());
    w.answer(Answer::Choice(3)).unwrap();
    assert_eq!(w.answer(Answer::Choice(0)), Err("expected a yes / no answer"));
    w.answer(Answer::Confirm(false)).unwrap();
    let r = w.finish();
    assert_eq!(r.project_name, "Shop");
    assert_eq!(r.project_slug, "shop");
    assert_eq!(r.author_email, "a@bc");
    assert_eq!(r.license, django_bakery::options::License::Proprietary);
    assert!(!r.open_source);
}

#[test]
fn a_full_react_frontend_asks_for_a_radix_flavor() {
    let mut w = Wizard::new(Recipe::defaults());
    answer_defaults_until(&mut w, "Frontend");
    let (labels, start) = select_of(&w);
    assert_eq!(labels[1], ("React + Vite", "SPA, optional Radix UI"));
    assert_eq!(start, 0);
    w.answer(Answer::Choice(1)).unwrap();
    answer_defaults_until(&mut w, "Radix flavor");
    let (labels, start) = select_of(&w);
    assert_eq!(labels.len(), 2);
    assert_eq!(start, 0);
    w.answer(Answer::Choice(1)).unwrap();
    answer_defaults_until(&mut w, "Wire up Vitest 8 + Playwright?");
    loop {
        match w.turn().unwrap() {
            Turn::Finished => break,
            Turn::Skip { .. } => w.skip().unwrap(),
            Turn::Ask { prompt, .. } => w.answer(default_answer(&prompt)).unwrap(),
        }
    }
    let r = w.finish();
    assert_eq!(r.frontend, Frontend::React);
    assert_eq!(r.radix_flavor, Some(RadixFlavor::Primitives));
    assert!(r.js_testing);
    assert!(r.validate().is_ok());
}

#[test]
fn a_preset_flavor_is_the_radix_default() {
    let mut preset = Recipe::defaults();
    preset.frontend = Frontend::React;
    preset.radix_flavor = Some(RadixFlavor::Primitives);
    let mut w = Wizard::new(preset);
    answer_defaults_until(&mut w, "Radix flavor");
    let (_, start) = select_of(&w);
    assert_eq!(start, 1);
}

#[test]
fn a_skeleton_frontend_skips_radix_and_js_testing() {
    let (r, asked) = run(Recipe::defaults(), &|m| match m {
        "Frontend" => Some(Answer::Choice(3)),
        "Frontend variant" => Some(Answer::Choice(1)),
        _ => None,
    });
    assert_eq!(r.frontend, Frontend::Vue);
    assert_eq!(r.frontend_variant, FrontendVariant::Skeleton);
    assert_eq!(r.radix_flavor, None);
    assert!(!r.js_testing);
    assert!(asked.contains(&"Language"));
    assert!(!asked.contains(&"Radix flavor"));
    assert!(!asked.contains(&"Wire up Vitest 8 + Playwright?"));
}

#[test]
fn sqlite_skips_the_database_password_and_multi_tenancy() {
    let mut preset = Recipe::defaults();
    preset.multi_tenant = true;
    let (r, asked) = run(preset, &|m| match m {
        "Primary relational database" => Some(Answer::Choice(1)),
        _ => None,
    });
    assert_eq!(r.relational_db, RelationalDb::Sqlite);
    assert!(!r.multi_tenant);
    assert_eq!(r.db_password, "");
    assert!(!asked.contains(&"Database password"));
    assert!(r.validate().is_ok());
}

#[test]
fn without_celery_the_flower_and_redis_credentials_are_empty() {
    let (r, asked) = run(Recipe::defaults(), &|m| match m {
        "Add Celery (+ Beat + Flower)?" => Some(Answer::Confirm(false)),
        _ => None,
    });
    assert!(!r.use_celery);
    assert_eq!(r.celery_broker, CeleryBroker::Redis);
    assert_eq!(r.flower_user, "");
    assert_eq!(r.flower_password, "");
    assert_eq!(r.redis_password, "");
    assert!(!asked.contains(&"Celery broker"));
    assert!(!asked.contains(&"Redis password"));
}

#[test]
fn the_admin_email_defaults_to_the_answered_author_email() {
    let (r, _) = run(Recipe::defaults(), &|m| match m {
        "Author email" => Some(Answer::Text("dev@shop.io".to_string())),
        "Container setup" => Some(Answer::Choice(2)),
        _ => None,
    });
    assert_eq!(r.superuser_email, "dev@shop.io");
    assert_eq!(r.container_setup, ContainerSetup::Nothing);
}

#[test]
fn a_finished_questionnaire_asks_nothing_more() {
    let (_, asked) = run(Recipe::defaults(), &|_| None);
    assert!(!asked.is_empty());
    let mut w = Wizard::new(Recipe::defaults());
    loop {
        match w.turn().unwrap() {
            Turn::Finished => break,
            Turn::Skip { .. } => w.skip().unwrap(),
            Turn::Ask { prompt, .. } => w.answer(default_answer(&prompt)).unwrap(),
        }
    }
    assert!(w.skip().is_err());
    assert_eq!(w.answer(Answer::Confirm(true)), Err("no question is waiting for an answer"));
    assert!(matches!(w.turn().unwrap(), Turn::Finished));
}

#[test]
fn a_whole_run_repairs_a_preset_that_breaks_the_skip_rules() {
    let mut p = Recipe::defaults();
    p.frontend = Frontend::Nothing;
    p.frontend_variant = FrontendVariant::Skeleton;
    p.radix_flavor = Some(RadixFlavor::Primitives);
    p.js_testing = true;
    p.relational_db = RelationalDb::Sqlite;
    p.multi_tenant = true;
    p.db_password = "leftover".to_string();
    p.use_celery = false;
    p.celery_broker = CeleryBroker::Redis;
    p.flower_user = "flower".to_string();
    p.flower_password = "secret".to_string();
    p.redis_password = "secret".to_string();
    let (r, _) = run(p, &|_| None);
    assert_eq!(r.frontend_variant, FrontendVariant::Full);
    assert_eq!(r.radix_flavor, None);
    assert!(!r.js_testing);
    assert!(!r.multi_tenant);
    assert_eq!(r.db_password, "");
    assert_eq!(r.flower_user, "");
    assert_eq!(r.flower_password, "");
    assert_eq!(r.redis_password, "");
}
