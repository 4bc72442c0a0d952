use django_bakery::context::CtxValue;
use django_bakery::engine::{apply_filter, Renderer, TextFilter};
use django_bakery::error::Error;
use django_bakery::filters::{
    camel_case, env_var, kebab_case, secret_key_fn, slugify, snake_case, underscore_separators,
};

fn env_with_filters() -> Renderer {
    Renderer::new(&Vec::new())
}

#[test]
fn slugify_filter_produces_kebab() {
    let env = env_with_filters();
    let out = env.render_str("{{ 'My Awesome App' | slugify }}").unwrap();
    assert_eq!(out, "my-awesome-app");
}

#[test]
fn snake_case_filter_handles_spaces_and_camel() {
    let env = env_with_filters();
    assert_eq!(
        env.render_str("{{ 'My Awesome App' | snake_case }}").unwrap(),
        "my_awesome_app"
    );
    assert_eq!(env.render_str("{{ 'AcmeCorp' | snake_case }}").unwrap(), "acme_corp");
}

#[test]
fn kebab_case_filter() {
    let env = env_with_filters();
    assert_eq!(
        env.render_str("{{ 'MyAwesomeApp' | kebab_case }}").unwrap(),
        "my-awesome-app"
    );
}

#[test]
fn camel_case_filter() {
    let env = env_with_filters();
    assert_eq!(
        env.render_str("{{ 'my_awesome_app' | camel_case }}").unwrap(),
        "MyAwesomeApp"
    );
}

#[test]
fn env_var_filter_uppercases_and_normalizes() {
    let env = env_with_filters();
    assert_eq!(env.render_str("{{ 'my-app.name' | env_var }}").unwrap(), "MY_APP_NAME");
}

#[test]
fn secret_key_function_default_length() {
    let env = env_with_filters();
    let out = env.render_str("{{ secret_key() }}").unwrap();
    assert_eq!(out.len(), 50);
}

#[test]
fn secret_key_function_custom_length() {
    let env = env_with_filters();
    let out = env.render_str("{{ secret_key(16) }}").unwrap();
    assert_eq!(out.len(), 16);
}

#[test]
fn secret_key_is_non_deterministic() {
    let env = env_with_filters();
    let a = env.render_str("{{ secret_key(32) }}").unwrap();
    let b = env.render_str("{{ secret_key(32) }}").unwrap();
    assert_ne!(a, b, "two consecutive secret_key() calls must differ");
}

#[test]
fn filter_functions_called_directly() {
    assert_eq!(slugify("My Awesome App".to_string()), "my-awesome-app");
    assert_eq!(snake_case("AcmeCorp".to_string()), "acme_corp");
    assert_eq!(kebab_case("MyAwesomeApp".to_string()), "my-awesome-app");
    assert_eq!(camel_case("my_awesome_app".to_string()), "MyAwesomeApp");
    assert_eq!(env_var("my-app.name".to_string()), "MY_APP_NAME");
    assert_eq!(secret_key_fn(None).unwrap().len(), 50);
    assert_eq!(apply_filter(TextFilter::EnvVar, "a.b-c".to_string()), "A_B_C");
    assert_eq!(apply_filter(TextFilter::Slugify, "Hello World".to_string()), "hello-world");
}

#[test]
fn py_module_is_the_snake_case_filter() {
    let env = env_with_filters();
    assert_eq!(env.render_str("{{ 'My Shop' | py_module }}").unwrap(), "my_shop");
}

#[test]
fn the_context_is_under_bakery() {
    let entries = vec![
        ("project_slug".to_string(), CtxValue::Text("shop".to_string())),
        ("use_celery".to_string(), CtxValue::Flag(true)),
        ("year".to_string(), CtxValue::Number(2026)),
        (
            "versions".to_string(),
            CtxValue::Table(vec![
                ("py.django".to_string(), "6.0.1".to_string()),
                ("django".to_string(), "6.0.1".to_string()),
            ]),
        ),
    ];
    let r = Renderer::new(&entries);
    assert_eq!(
        r.render_str("{{ bakery.project_slug }}-{{ bakery.year }}-{% if bakery.use_celery %}c{% endif %}")
            .unwrap(),
        "shop-2026-c"
    );
    assert_eq!(r.render_str("{{ bakery.versions['py.django'] }}").unwrap(), "6.0.1");
    assert_eq!(r.render_str("{{ bakery.versions.django }}").unwrap(), "6.0.1");
}

#[test]
fn undefined_values_are_errors_and_name_the_template() {
    let r = Renderer::new(&Vec::new());
    match r.render_str("{{ bakery.missing }}") {
        Err(Error::PathRender { path, .. }) => assert_eq!(path, "{{ bakery.missing }}"),
        other => panic!("expected a path render error, got {other:?}"),
    }
    match r.render_named("config/x.py", "{{ nothing.here }}") {
        Err(Error::Render { path, .. }) => assert_eq!(path, "config/x.py"),
        other => panic!("expected a render error, got {other:?}"),
    }
}

#[test]
fn trailing_newlines_are_kept() {
    let r = Renderer::new(&Vec::new());
    assert_eq!(r.render_named("a.txt", "x\n").unwrap(), "x\n");
}

#[test]
fn render_file_strips_skip_lines_and_refuses_non_utf8() {
    let r = Renderer::new(&vec![("flag".to_string(), CtxValue::Flag(false))]);
    let body = b"a\n{% if bakery.flag %}b{% else %}__SKIP__{% endif %}\nc\n".to_vec();
    assert_eq!(r.render_file("f.txt", &body).unwrap(), "a\nc\n");
    match r.render_file("bad.bin", &vec![0xff, 0xfe]) {
        Err(Error::Render { path, message }) => {
            assert_eq!(path, "bad.bin");
            assert_eq!(
                message,
                "embedded template contained non-UTF-8 bytes; tag it as a binary extension"
            );
        }
        other => panic!("expected a render error, got {other:?}"),
    }
}

#[test]
fn context_key_given_twice_renders_the_later_value() {
    let entries = vec![
        ("zeta".to_string(), CtxValue::Text("first".to_string())),
        ("alpha".to_string(), CtxValue::Number(1)),
        ("zeta".to_string(), CtxValue::Text("second".to_string())),
    ];
    let env = Renderer::new(&entries);
    assert_eq!(env.render_str("{{ bakery.zeta }}").unwrap(), "second");
    assert_eq!(
        env.render_str("{% for k in bakery %}{{ k }},{% endfor %}").unwrap(),
        "alpha,zeta,"
    );
}

#[test]
fn text_without_markup_renders_to_itself() {
    let r = Renderer::new(&Vec::new());
    assert_eq!(r.render_str("plain-name.txt").unwrap(), "plain-name.txt");
    assert_eq!(
        r.render_named("notes.md", "line one\n  line <two> & 'three'\n\n").unwrap(),
        "line one\n  line <two> & 'three'\n\n"
    );
    let body = b"keep\n  __SKIP__\nthis } too\n".to_vec();
    assert_eq!(r.render_file("f.txt", &body).unwrap(), "keep\nthis } too\n");
}

#[test]
fn underscore_separators_rewrites_dashes_and_dots_only() {
    assert_eq!(underscore_separators("MY-APP.NAME"), "MY_APP_NAME");
    assert_eq!(underscore_separators("a-b.c_d e"), "a_b_c_d e");
    assert_eq!(underscore_separators(""), "");
}
