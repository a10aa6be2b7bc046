//! Loading templates from a directory, with the user's callbacks on either
//! side, and reloading them when the directory changes.

use std::io::{Seek, SeekFrom, Write};

use rocket_tera::context::{
    ContextManager, InitError, ReloadOutcome, TemplateContext, WatchEvent,
};
use rocket_tera::engine::{init, render, Engines, TemplateInfo};
use tempfile::{Builder, NamedTempFile, TempDir};
use tera::{Context, Kwargs, State, Tera};

/// A scratch template directory, so that a test can modify its templates
/// without affecting tests running in parallel. Files live as long as it does.
struct Scratch {
    dir: TempDir,
    subdirs: Vec<TempDir>,
    files: Vec<(String, NamedTempFile)>,
}

impl Scratch {
    fn new() -> Scratch {
        Scratch { dir: tempfile::tempdir().expect("create template dir"), subdirs: vec![], files: vec![] }
    }

    /// The directory's path, normalized, as bytes.
    fn root(&self) -> Vec<u8> {
        let path = self.dir.path().canonicalize().expect("canonical template dir");
        path.as_os_str().as_encoded_bytes().to_vec()
    }

    /// Creates the file `name` in the directory or rewrites it with `text`.
    fn write(&mut self, name: &str, text: &str) {
        if let Some((_, file)) = self.files.iter_mut().find(|(n, _)| n == name) {
            let file = file.as_file_mut();
            file.set_len(0).expect("truncate file");
            file.seek(SeekFrom::Start(0)).expect("rewind file");
            file.write_all(text.as_bytes()).expect("write file");
            file.sync_all().expect("sync file");
        } else {
            let mut file = Builder::new()
                .prefix(name)
                .rand_bytes(0)
                .tempfile_in(self.dir.path())
                .expect("create file");
            file.write_all(text.as_bytes()).expect("write file");
            file.as_file().sync_all().expect("sync file");
            self.files.push((name.to_string(), file));
        }
    }

    /// Creates the file `name` holding `bytes`, which need not be text.
    fn write_bytes(&mut self, name: &str, bytes: &[u8]) {
        let mut file = Builder::new()
            .prefix(name)
            .rand_bytes(0)
            .tempfile_in(self.dir.path())
            .expect("create file");
        file.write_all(bytes).expect("write file");
        self.files.push((name.to_string(), file));
    }

    /// Creates the file `name` with `text` in a new subdirectory `sub`.
    fn write_in_subdir(&mut self, sub: &str, name: &str, text: &str) {
        let subdir = Builder::new()
            .prefix(sub)
            .rand_bytes(0)
            .tempdir_in(self.dir.path())
            .expect("create subdir");
        let mut file = Builder::new()
            .prefix(name)
            .rand_bytes(0)
            .tempfile_in(subdir.path())
            .expect("create file");
        file.write_all(text.as_bytes()).expect("write file");
        self.files.push((format!("{}/{}", sub, name), file));
        self.subdirs.push(subdir);
    }
}

fn show(tera: &Tera, name: &str) -> Option<String> {
    let mut context = Context::new();
    context.insert("value", "hi");
    render(tera, name, Ok(context)).ok()
}

/// Callbacks built from two plain functions.
struct Custom {
    register: fn(&mut Tera) -> Result<(), String>,
    finalize: fn(&mut Tera) -> Result<(), String>,
}

/// Runs the steps of initialization with the callbacks between them, as the
/// fairing does at launch.
fn launch(root: Vec<u8>, callbacks: &Custom) -> Result<TemplateContext, InitError<String>> {
    let mut tera = init();
    let registered = (callbacks.register)(&mut tera);
    let mut ctx = TemplateContext::initialize(root, tera, registered)?;
    let finalized = (callbacks.finalize)(&mut ctx.tera);
    ctx.finish(finalized)
}

fn nothing(_: &mut Tera) -> Result<(), String> {
    Ok(())
}

fn no_callbacks() -> Custom {
    Custom { register: nothing, finalize: nothing }
}

/// A custom filter, registered by the callback ordering tests below.
fn shout(value: &str, _: Kwargs, _: &State) -> String {
    value.to_uppercase()
}

fn register_shout(tera: &mut Tera) -> Result<(), String> {
    tera.register_filter("shout", shout);
    Ok(())
}

/// Registers a template that extends `base.txt`, which is only loaded from
/// disk, so this can only succeed once template loading has happened.
fn add_extending_template(tera: &mut Tera) -> Result<(), String> {
    tera.add_raw_template(
        "extends.txt",
        r#"{% extends "base.txt" %}{% block content %}{{ value }}{% endblock content %}"#,
    )
    .map_err(|e| e.to_string())
}

/// A directory with a template using the `shout` filter and a base template
/// meant to be extended.
fn order_templates() -> Scratch {
    let mut dir = Scratch::new();
    dir.write("filtered.txt", "{{ value | shout }}");
    dir.write("base.txt", "[{% block content %}{% endblock content %}]");
    dir
}

#[test]
fn test_callback_error() {
    let dir = order_templates();
    let callbacks = Custom {
        register: |_| Err("error with Tera!".into()),
        finalize: nothing,
    };
    assert!(matches!(
        launch(dir.root(), &callbacks),
        Err(InitError::Register(reason)) if reason == "error with Tera!"
    ));
}

#[test]
fn test_callback_ordering() {
    // The register callback runs first, so its filter is known by the time
    // the template using it is loaded.
    let dir = order_templates();
    let callbacks = Custom { register: register_shout, finalize: nothing };
    let ctx = launch(dir.root(), &callbacks).expect("launch succeeds");
    assert_eq!(show(&ctx.tera, "filtered.txt"), Some("HI".into()));
}

#[test]
fn test_extending_too_early() {
    // Conversely, extending `base.txt` in the register callback is too early:
    // nothing has been loaded from disk yet.
    let dir = order_templates();
    let early = Custom { register: add_extending_template, finalize: nothing };
    assert!(matches!(
        launch(dir.root(), &early),
        Err(InitError::Register(_))
    ));

    // The finalize callback runs after loading, where extending works.
    let late = Custom { register: register_shout, finalize: add_extending_template };
    let ctx = launch(dir.root(), &late).expect("launch succeeds");
    assert_eq!(show(&ctx.tera, "extends.txt"), Some("[hi]".into()));
}

#[test]
fn test_unknown_filter_fails_to_load() {
    // Without the register callback, the `shout` filter is unknown when the
    // template using it is loaded.
    let dir = order_templates();
    assert!(matches!(
        launch(dir.root(), &no_callbacks()),
        Err(InitError::Load(_))
    ));
}

#[test]
fn test_template_metadata_with_tera() {
    let mut dir = Scratch::new();
    dir.write("txt_test.txt", "{{ value }}");
    dir.write("html_test.html", "{{ value }}");
    let ctx = launch(dir.root(), &no_callbacks()).expect("loads");

    assert!(show(&ctx.tera, "txt_test.txt").is_some());
    assert!(show(&ctx.tera, "html_test.html").is_some());
    assert!(show(&ctx.tera, "not_existing").is_none());
    assert_eq!(ctx.root, dir.root());
}

#[test]
fn test_tera_templates() {
    // A txt file isn't escaped, an HTML file is.
    let mut dir = Scratch::new();
    dir.write("txt_test.txt", "{{ content }}");
    dir.write("html_test.html", "{{ content }}");
    let ctx = launch(dir.root(), &no_callbacks()).expect("loads");

    let mut context = Context::new();
    context.insert("content", "<script />");
    assert_eq!(
        render(&ctx.tera, "txt_test.txt", Ok(context.clone())).ok(),
        Some("<script />".into())
    );
    assert_eq!(
        render(&ctx.tera, "html_test.html", Ok(context)).ok(),
        Some("&lt;script /&gt;".into())
    );
}

#[test]
fn test_nested_template_names() {
    // Templates are named by their path relative to the template directory.
    let mut dir = Scratch::new();
    dir.write_in_subdir("sub", "page.txt", "nested {{ value }}");
    let ctx = launch(dir.root(), &no_callbacks()).expect("loads");
    assert_eq!(show(&ctx.tera, "sub/page.txt"), Some("nested hi".into()));
}

fn reloading_manager(dir: &Scratch) -> ContextManager {
    let ctx = launch(dir.root(), &no_callbacks()).expect("loads");
    ContextManager::new(ctx, true)
}

#[test]
fn test_template_reload() {
    let mut dir = Scratch::new();
    dir.write("reload.txt", "initial");
    let mut cm = reloading_manager(&dir);
    assert!(cm.is_reloading());
    assert_eq!(show(&cm.context().tera, "reload.txt"), Some("initial".into()));

    dir.write("reload.txt", "reload");
    assert!(matches!(cm.reload_if_needed(&vec![WatchEvent::Change]), ReloadOutcome::Reloaded));
    assert_eq!(show(&cm.context().tera, "reload.txt"), Some("reload".into()));
}

#[test]
fn test_template_reload_new_file() {
    let mut dir = Scratch::new();
    dir.write("existing.txt", "existing");
    let mut cm = reloading_manager(&dir);

    assert_eq!(show(&cm.context().tera, "new.txt"), None);

    dir.write("new.txt", "new");
    assert!(matches!(cm.reload_if_needed(&vec![WatchEvent::Change]), ReloadOutcome::Reloaded));
    assert_eq!(show(&cm.context().tera, "new.txt"), Some("new".into()));
    assert_eq!(show(&cm.context().tera, "existing.txt"), Some("existing".into()));
}

#[test]
fn test_template_reload_broken_edit() {
    let mut dir = Scratch::new();
    dir.write("page.txt", "initial");
    let mut cm = reloading_manager(&dir);

    // Break an existing template and add a valid new one. The reload fails
    // as a whole, so neither change is picked up.
    dir.write("page.txt", "{{ broken");
    dir.write("new.txt", "new");
    assert!(matches!(cm.reload_if_needed(&vec![WatchEvent::Change]), ReloadOutcome::Failed(_)));
    assert_eq!(show(&cm.context().tera, "new.txt"), None);
    assert_eq!(show(&cm.context().tera, "page.txt"), Some("initial".into()));

    // Once the template is fixed, both changes are picked up.
    dir.write("page.txt", "fixed");
    assert!(matches!(cm.reload_if_needed(&vec![WatchEvent::Change]), ReloadOutcome::Reloaded));
    assert_eq!(show(&cm.context().tera, "page.txt"), Some("fixed".into()));
    assert_eq!(show(&cm.context().tera, "new.txt"), Some("new".into()));
}

#[test]
fn test_access_events_do_not_reload() {
    // Access events, such as those caused by reloading itself, never trigger
    // a reload.
    let mut dir = Scratch::new();
    dir.write("page.txt", "initial");
    let mut cm = reloading_manager(&dir);

    dir.write("page.txt", "changed");
    let accesses = vec![WatchEvent::Access, WatchEvent::Access];
    assert!(matches!(cm.reload_if_needed(&accesses), ReloadOutcome::Unchanged));
    assert_eq!(show(&cm.context().tera, "page.txt"), Some("initial".into()));

    let mixed = vec![WatchEvent::Access, WatchEvent::Change, WatchEvent::Access];
    assert!(matches!(cm.reload_if_needed(&mixed), ReloadOutcome::Reloaded));
    assert_eq!(show(&cm.context().tera, "page.txt"), Some("changed".into()));
}

#[test]
fn test_watcher_errors_trigger_reload() {
    let mut dir = Scratch::new();
    dir.write("page.txt", "initial");
    let mut cm = reloading_manager(&dir);
    dir.write("page.txt", "changed");
    assert!(matches!(cm.reload_if_needed(&vec![WatchEvent::Failed]), ReloadOutcome::Reloaded));
    assert_eq!(show(&cm.context().tera, "page.txt"), Some("changed".into()));
}

#[test]
fn test_no_reload_without_watcher() {
    let mut dir = Scratch::new();
    dir.write("page.txt", "initial");
    let ctx = launch(dir.root(), &no_callbacks()).expect("loads");
    let mut cm = ContextManager::new(ctx, false);
    assert!(!cm.is_reloading());

    dir.write("page.txt", "changed");
    assert!(matches!(cm.reload_if_needed(&vec![WatchEvent::Change]), ReloadOutcome::Unchanged));
    assert_eq!(show(&cm.context().tera, "page.txt"), Some("initial".into()));
}

/// Dot-files, such as Vim swap files, aren't templates. They must not be
/// loaded, or one that isn't valid UTF-8 breaks loading and reloading.
#[test]
fn test_template_reload_ignores_dotfiles() {
    let mut dir = Scratch::new();
    dir.write("page.txt", "initial");
    dir.write(".gitkeep", "");
    dir.write_bytes(".page.txt.swp", &[0xb0, 0xff, 0xfe]);
    let mut cm = reloading_manager(&dir);

    assert_eq!(show(&cm.context().tera, "page.txt"), Some("initial".into()));
    assert_eq!(show(&cm.context().tera, ".gitkeep"), None);

    dir.write("page.txt", "changed");
    assert!(matches!(cm.reload_if_needed(&vec![WatchEvent::Change]), ReloadOutcome::Reloaded));
    assert_eq!(show(&cm.context().tera, "page.txt"), Some("changed".into()));
}

fn override_slug(tera: &mut Tera) -> Result<(), String> {
    fn slug(_: &str, _: Kwargs, _: &State) -> String {
        "overridden".to_string()
    }

    tera.register_filter("slug", slug);
    Ok(())
}

/// The register callback runs after the contrib helpers are registered, so it
/// can replace one of them, and templates loaded afterwards use its version.
#[test]
fn test_register_callback_overrides_contrib_name() {
    let mut dir = Scratch::new();
    dir.write("slugged.txt", "{{ value | slug }}");
    let plain = launch(dir.root(), &no_callbacks()).expect("loads");
    assert_eq!(show(&plain.tera, "slugged.txt"), Some("hi".into()));

    let callbacks = Custom { register: override_slug, finalize: nothing };
    let ctx = launch(dir.root(), &callbacks).expect("loads");
    assert_eq!(show(&ctx.tera, "slugged.txt"), Some("overridden".into()));
}

#[test]
fn test_engines_from_files() {

    let mut dir = Scratch::new();
    dir.write("one.txt", "one {{ value }}");
    dir.write("two.html", "<p>{{ value }}</p>");
    let path = |name: &str| {
        let path = dir.dir.path().join(name);
        Some(path.to_str().expect("UTF-8 path").to_string())
    };
    let templates = vec![
        ("first".to_string(), TemplateInfo { path: path("one.txt") }),
        ("inline".to_string(), TemplateInfo { path: None }),
        ("second.html".to_string(), TemplateInfo { path: path("two.html") }),
    ];

    let engines = Engines::init(&templates).expect("files load");
    let mut names = engines.templates();
    names.sort();
    assert_eq!(names, vec!["first".to_string(), "second.html".to_string()]);

    let mut context = Context::new();
    context.insert("value", "<hi>");
    assert_eq!(engines.render("first", Ok(context.clone())).ok(), Some("one <hi>".into()));
    assert_eq!(
        engines.render("second.html", Ok(context.clone())).ok(),
        Some("<p>&lt;hi&gt;</p>".into())
    );
    assert!(engines.render("inline", Ok(context)).is_err());
}

fn fail_finalize(_: &mut Tera) -> Result<(), String> {
    Err("finalize failed".into())
}

#[test]
fn test_finalize_error() {
    let dir = order_templates();
    let callbacks = Custom { register: register_shout, finalize: fail_finalize };
    assert!(matches!(
        launch(dir.root(), &callbacks),
        Err(InitError::Finalize(reason)) if reason == "finalize failed"
    ));
}

fn must_not_run(_: &mut Tera) -> Result<(), String> {
    panic!("finalize never runs for a directory that is not valid UTF-8");
}

#[test]
fn test_non_utf8_root_is_refused() {
    let callbacks = Custom { register: register_shout, finalize: must_not_run };
    assert!(matches!(launch(vec![0xb0, 0xff, 0xfe], &callbacks), Err(InitError::NotUtf8)));
}

fn fail_register(_: &mut Tera) -> Result<(), String> {
    Err("register failed".into())
}

#[test]
fn test_register_error_comes_before_root_check() {
    // The register callback runs before the directory is looked at, so its
    // failure is what is reported, even for a directory that is not valid UTF-8.
    let callbacks = Custom { register: fail_register, finalize: must_not_run };
    assert!(matches!(
        launch(vec![0xb0, 0xff, 0xfe], &callbacks),
        Err(InitError::Register(reason)) if reason == "register failed"
    ));
}

#[test]
fn test_initialize_loads_root() {
    let mut dir = Scratch::new();
    dir.write("page.html", "<p>{{ value }}</p>");
    let root = dir.root();
    let ctx = TemplateContext::initialize(root.clone(), init(), Ok::<(), String>(()))
        .expect("loads");
    assert_eq!(ctx.root, root);
    assert_eq!(show(&ctx.tera, "page.html"), Some("<p>hi</p>".into()));

    // A file that is not a valid template aborts loading.
    dir.write("broken.html", "{% if %}");
    assert!(matches!(
        TemplateContext::initialize(root, init(), Ok::<(), String>(())),
        Err(InitError::Load(_))
    ));
}

#[test]
fn test_finish() {
    let mut dir = Scratch::new();
    dir.write("page.html", "<p>{{ value }}</p>");
    let root = dir.root();
    let ctx = TemplateContext::initialize(root.clone(), init(), Ok::<(), String>(()))
        .expect("loads");
    let ready = ctx.finish(Ok::<(), String>(())).expect("finished");
    assert_eq!(ready.root, root);
    assert_eq!(show(&ready.tera, "page.html"), Some("<p>hi</p>".into()));

    let ctx = TemplateContext::initialize(root, init(), Ok::<(), String>(())).expect("loads");
    assert!(matches!(
        ctx.finish(Err::<(), String>("late".into())),
        Err(InitError::Finalize(reason)) if reason == "late"
    ));
}

#[test]
fn test_globby_paths() {
    let mut dir = Scratch::new();
    dir.write_in_subdir("[test]", "html_test.html", "<p>{{ value }}</p>");
    let ctx = launch(dir.root(), &no_callbacks()).expect("loads");
    assert!(ctx.tera.get_template_names().any(|name| name == "[test]/html_test.html"));
    assert_eq!(show(&ctx.tera, "[test]/html_test.html"), Some("<p>hi</p>".into()));
}

fn add_greeting(tera: &mut Tera) -> Result<(), String> {
    tera.add_raw_template("greeting.html", "<p>hello {{ value }}</p>").map_err(|e| e.to_string())
}

#[test]
fn test_finalize_templates_survive_reload() {
    let mut dir = Scratch::new();
    dir.write("page.txt", "initial");
    let callbacks = Custom { register: nothing, finalize: add_greeting };
    let ctx = launch(dir.root(), &callbacks).expect("loads");
    let mut cm = ContextManager::new(ctx, true);
    assert_eq!(show(&cm.context().tera, "greeting.html"), Some("<p>hello hi</p>".into()));

    dir.write("page.txt", "changed");
    assert!(matches!(cm.reload_if_needed(&vec![WatchEvent::Change]), ReloadOutcome::Reloaded));
    assert_eq!(show(&cm.context().tera, "page.txt"), Some("changed".into()));
    assert_eq!(show(&cm.context().tera, "greeting.html"), Some("<p>hello hi</p>".into()));
}
