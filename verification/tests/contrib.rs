//! Every `tera-contrib` filter, function and test is registered by `init()`,
//! without the application asking for it.

use rocket_tera::contrib::{register_groups, ContribGroups};
use rocket_tera::engine::{init, render as render_template};
use tera::{Context, Kwargs, State, Tera};

/// Renders `body` as a template with `context`, relying only on what `init()`
/// registered.
fn render(body: &str, context: Context) -> String {
    let mut tera = init();
    tera.add_raw_template("contrib.txt", body)
        .expect("valid Tera template");
    render_template(&tera, "contrib.txt", Ok(context)).expect("rendered")
}

fn context_with<T: rocket::serde::Serialize + ?Sized>(key: &'static str, value: &T) -> Context {
    let mut context = Context::new();
    context.insert(key, value);
    context
}

#[test]
fn test_base64() {
    assert_eq!(render(r#"{{ "hi" | b64_encode }}"#, Context::new()), "aGk=");
    assert_eq!(render(r#"{{ "aGk=" | b64_decode }}"#, Context::new()), "hi");
}

#[test]
fn test_date() {
    let ctx = context_with("stamp", "2026-09-04T12:00:00Z");
    assert_eq!(render("{{ stamp | date }}", ctx.clone()), "2026-09-04");
    assert_eq!(
        render(r#"{{ stamp | date(format="%B %d, %Y") }}"#, ctx.clone()),
        "September 04, 2026"
    );
    assert!(!render("{{ now() }}", Context::new()).is_empty());
    assert_eq!(
        render(
            r#"{% if stamp is before(other="2030-01-01") %}yes{% endif %}"#,
            ctx.clone()
        ),
        "yes"
    );
    assert_eq!(
        render(
            r#"{% if stamp is after(other="2020-01-01") %}yes{% endif %}"#,
            ctx
        ),
        "yes"
    );
}

#[test]
fn test_filesize_format() {
    assert_eq!(render("{{ 1024 | filesize_format }}", Context::new()), "1 KiB");
}

#[test]
fn test_format() {
    assert_eq!(
        render(r#"{{ 3.14159 | format(spec=".2") }}"#, Context::new()),
        "3.14"
    );
}

#[test]
fn test_json() {
    assert_eq!(
        render("{{ items | json_encode }}", context_with("items", &[1, 2])),
        "[1,2]"
    );
}

#[test]
fn test_rand() {
    // `end` is exclusive, so this range has only one possible answer.
    assert_eq!(render("{{ get_random(start=1, end=2) }}", Context::new()), "1");
    assert_eq!(
        render("{{ items | shuffle | length }}", context_with("items", &[1, 2, 3])),
        "3"
    );
}

#[test]
fn test_regex() {
    assert_eq!(
        render("{{ value | striptags }}", context_with("value", "<b>hi</b>")),
        "hi"
    );
    assert_eq!(
        render("{{ value | spaceless }}", context_with("value", "<p> <a></a> </p>")),
        "<p><a></a></p>"
    );
    assert_eq!(
        render(
            r#"{{ value | regex_replace(pattern="[0-9]+", rep="") }}"#,
            context_with("value", "a1b2")
        ),
        "ab"
    );
    assert_eq!(
        render(
            r#"{% if value is matching(pat="^hi") %}yes{% endif %}"#,
            context_with("value", "hi there")
        ),
        "yes"
    );
}

#[test]
fn test_slug() {
    assert_eq!(
        render("{{ value | slug }}", context_with("value", "Hello World")),
        "hello-world"
    );
}

#[test]
fn test_urlencode() {
    let ctx = context_with("value", "a b/c");
    assert_eq!(render("{{ value | urlencode }}", ctx.clone()), "a%20b/c");
    assert_eq!(render("{{ value | urlencode_strict }}", ctx), "a%20b%2Fc");
}

/// A contrib name is registered by `init()`, before anything else, so an
/// application can still replace it.
#[test]
fn test_contrib_name_can_be_overridden() {
    fn slug(_: &str, _: Kwargs, _: &State) -> String {
        "overridden".to_string()
    }

    let mut tera = init();
    tera.register_filter("slug", slug);
    tera.add_raw_template("override.txt", "{{ value | slug }}")
        .expect("valid Tera template");
    assert_eq!(
        render_template(&tera, "override.txt", Ok(context_with("value", "Hello World"))).ok(),
        Some("overridden".into())
    );
}

/// Only the selected groups are registered.
#[test]
fn test_register_selected_groups() {
    let mut tera = Tera::default();
    let groups = ContribGroups {
        base64: false,
        date: false,
        filesize_format: false,
        format: false,
        json: false,
        rand: false,
        regex: false,
        slug: false,
        urlencode: true,
    };
    register_groups(&mut tera, &groups);
    tera.add_raw_template("url.txt", "{{ value | urlencode }}/{{ value | urlencode_strict }}")
        .expect("urlencode filters registered");
    assert_eq!(
        render_template(&tera, "url.txt", Ok(context_with("value", "a b/c"))).ok(),
        Some("a%20b/c/a%20b%2Fc".into())
    );
    assert!(tera.add_raw_template("slug.txt", "{{ value | slug }}").is_err());
}
