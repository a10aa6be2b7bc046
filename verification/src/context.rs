//! The template context: the template directory and the engine loaded from
//! it, and the decisions about reloading it when its files change.
use crate::engine::{load, reload, template_glob, LoadError};
use crate::tera_api::{
    keeps_manual_templates, same_setup, tera_glob, tera_may_fail_load, tera_may_fail_reload, tera_may_load, tera_may_reload,
};
use vstd::prelude::*;
use vstd::utf8::{decode_utf8, valid_utf8};

verus! {

/// The template directory and the engine holding its templates.
pub struct TemplateContext {
    /// The root of the template directory, as the bytes of its path.
    pub root: Vec<u8>,
    /// The initialized templating engine.
    pub tera: tera::Tera,
}

/// Why no template context was built.
#[derive(Debug)]
pub enum InitError<E> {
    /// The template directory's path is not valid UTF-8.
    NotUtf8,
    /// The `register` callback failed.
    Register(E),
    /// The engine failed to load the templates.
    Load(tera::Error),
    /// The `finalize` callback failed.
    Finalize(E),
}

impl TemplateContext {
    /// Builds a template context in three steps, with the user's two
    /// callbacks run between them: an engine is set up with [`crate::engine::init`] and
    /// handed to the `register` callback, which adds the filters, tests and
    /// functions the templates use; this function then loads every template
    /// at `root`, an already normalized directory; and the `finalize`
    /// callback, which may add more templates, runs on the context's engine
    /// before [`TemplateContext::finish`] ends the initialization.
    ///
    /// `tera` is the engine the `register` callback ran on, and `registered`
    /// what it returned. A failed callback stops everything with its error.
    /// Otherwise a root that is not valid UTF-8 is refused; the templates
    /// are loaded as [`crate::engine::load`] loads them, and the engine's failure stops
    /// everything with its error. On success the context holds `root` and the
    /// engine with the templates loaded.
    pub fn initialize<E>(root: Vec<u8>, tera: tera::Tera, registered: Result<(), E>) -> (r: Result<
        TemplateContext,
        InitError<E>,
    >)
        ensures
            registered matches Err(e) ==> r == Err::<TemplateContext, InitError<E>>(
                InitError::Register(e),
            ),
            (r matches Err(InitError::NotUtf8)) <==> registered is Ok && !valid_utf8(root@),
            r matches Err(InitError::Load(_)) ==> {
                &&& registered is Ok
                &&& valid_utf8(root@)
                &&& tera_may_fail_load(tera, decode_utf8(template_glob(root@)))
            },
            !(r matches Err(InitError::Finalize(_))),
            r matches Ok(ctx) ==> {
                &&& registered is Ok
                &&& ctx.root@ == root@
                &&& same_setup(tera, ctx.tera)
                &&& tera_glob(ctx.tera) == Some(decode_utf8(template_glob(root@)))
                &&& tera_may_load(tera, decode_utf8(template_glob(root@)), ctx.tera)
                &&& keeps_manual_templates(tera, ctx.tera)
            },
    {
        match registered {
            Ok(()) => {},
            Err(e) => return Err(InitError::Register(e)),
        }
        let mut tera = tera;
        match load(&mut tera, root.as_slice()) {
            Ok(()) => {},
            Err(LoadError::NotUtf8) => return Err(InitError::NotUtf8),
            Err(LoadError::Engine(e)) => return Err(InitError::Load(e)),
        }
        Ok(TemplateContext { root, tera })
    }

    /// Ends the initialization begun by [`TemplateContext::initialize`]: the
    /// `finalize` callback ran on this context's engine, after the templates
    /// were loaded, and `finalized` is what it returned. If it failed, so does
    /// the initialization, with its error; otherwise the context is ready, and
    /// holds the engine as the callback left it.
    pub fn finish<E>(self, finalized: Result<(), E>) -> (r: Result<TemplateContext, InitError<E>>)
        ensures
            match finalized {
                Ok(()) => r == Ok::<TemplateContext, InitError<E>>(self),
                Err(e) => r == Err::<TemplateContext, InitError<E>>(InitError::Finalize(e)),
            },
    {
        match finalized {
            Ok(()) => Ok(self),
            Err(e) => Err(InitError::Finalize(e)),
        }
    }
}

/// What the directory watcher reported, reduced to what decides a reload.
#[derive(PartialEq, Eq, Clone, Copy, Debug)]
pub enum WatchEvent {
    /// The watcher reported an error.
    Failed,
    /// A file was accessed, which does not change it.
    Access,
    /// Any other change.
    Change,
}

/// Whether a batch of events asks for a reload: it does when any of them is
/// not a mere access. Reloading reads every template, which the watcher may
/// report as accesses, so accesses must not count, or templates would be
/// reloaded on every request.
pub open spec fn asks_for_reload(events: Seq<WatchEvent>) -> bool {
    exists|i: int| 0 <= i < events.len() && !(#[trigger] events[i] is Access)
}

/// A batch made only of accesses never asks for a reload, however long it is;
/// with [`ContextManager::reload_if_needed`], such a batch changes nothing.
pub proof fn accesses_never_reload(events: Seq<WatchEvent>)
    requires
        forall|i: int| 0 <= i < events.len() ==> #[trigger] events[i] is Access,
    ensures
        !asks_for_reload(events),
{
}

/// Any batch holding a change or a watcher error asks for a reload, whatever
/// accesses surround it.
pub proof fn any_change_asks_for_reload(before: Seq<WatchEvent>, event: WatchEvent, after: Seq<WatchEvent>)
    requires
        !(event is Access),
    ensures
        asks_for_reload(before + seq![event] + after),
{
    let all = before + seq![event] + after;
    assert(all[before.len() as int] == event);
}

/// Decides whether `events` ask for a reload.
pub fn needs_reload(events: &Vec<WatchEvent>) -> (r: bool)
    ensures
        r == asks_for_reload(events@),
{
    let mut i: usize = 0;
    while i < events.len()
        invariant
            i <= events@.len(),
            forall|j: int| 0 <= j < i ==> #[trigger] events@[j] is Access,
        decreases events@.len() - i,
    {
        match events[i] {
            WatchEvent::Access => {},
            _ => {
                return true;
            },
        }
        i = i + 1;
    }
    false
}

/// What [`ContextManager::reload_if_needed`] did.
#[derive(Debug)]
pub enum ReloadOutcome {
    /// Nothing asked for a reload, and nothing changed.
    Unchanged,
    /// The templates were reloaded.
    Reloaded,
    /// Reloading failed, with this error; the existing templates remain
    /// active.
    Failed(tera::Error),
}

/// Holds the template context, and whether changes to the template directory
/// are being watched so that the templates can be reloaded.
pub struct ContextManager {
    context: TemplateContext,
    reloading: bool,
}

impl ContextManager {
    /// The context held.
    pub closed spec fn current(&self) -> TemplateContext {
        self.context
    }

    /// Whether the template directory is watched for changes.
    pub closed spec fn watching(&self) -> bool {
        self.reloading
    }

    /// Holds `ctxt`; `watching` says whether a watcher of the template
    /// directory could be set up.
    pub fn new(ctxt: TemplateContext, watching: bool) -> (cm: ContextManager)
        ensures
            cm.current() == ctxt,
            cm.watching() == watching,
    {
        ContextManager { context: ctxt, reloading: watching }
    }

    /// The context held.
    pub fn context(&self) -> (ctxt: &TemplateContext)
        ensures
            *ctxt == self.current(),
    {
        &self.context
    }

    /// Whether templates are reloaded when they change.
    pub fn is_reloading(&self) -> (r: bool)
        ensures
            r == self.watching(),
    {
        self.reloading
    }

    /// Given the events the watcher reported since the last call, reloads all
    /// templates from disk if any of them was a change. A failed reload leaves
    /// the existing templates active. Nothing is reloaded when the directory is
    /// not watched.
    pub fn reload_if_needed(&mut self, events: &Vec<WatchEvent>) -> (r: ReloadOutcome)
        ensures
            final(self).watching() == old(self).watching(),
            final(self).current().root == old(self).current().root,
            same_setup(old(self).current().tera, final(self).current().tera),
            tera_glob(final(self).current().tera) == tera_glob(old(self).current().tera),
            (r is Unchanged) <==> !(old(self).watching() && asks_for_reload(events@)),
            (r is Unchanged || r is Failed) ==> final(self).current() == old(self).current(),
            tera_glob(old(self).current().tera) is None ==> !(r is Reloaded),
            r is Reloaded ==> tera_may_reload(old(self).current().tera, final(self).current().tera),
            r is Reloaded ==> keeps_manual_templates(
                old(self).current().tera,
                final(self).current().tera,
            ),
            r is Failed ==> tera_may_fail_reload(old(self).current().tera),
    {
        if !self.reloading || !needs_reload(events) {
            return ReloadOutcome::Unchanged;
        }
        match reload(&mut self.context.tera) {
            Ok(()) => ReloadOutcome::Reloaded,
            Err(e) => ReloadOutcome::Failed(e),
        }
    }
}

/// How the `template_dir` setting was found in the configuration.
pub enum TemplateDirSetting {
    /// It is set, to this path (as bytes).
    Configured(Vec<u8>),
    /// It is not set.
    Missing,
    /// It is set, but not to a path.
    Invalid,
}

/// The template directory used when none is configured: `templates/`.
pub open spec fn default_template_dir() -> Seq<u8> {
    seq![116u8, 101u8, 109u8, 112u8, 108u8, 97u8, 116u8, 101u8, 115u8, 47u8]
}

/// The template directory to use: the configured one, `templates/` when none
/// is configured, and none at all when the setting is invalid, which aborts
/// the launch.
pub fn template_dir(setting: TemplateDirSetting) -> (dir: Option<Vec<u8>>)
    ensures
        match setting {
            TemplateDirSetting::Configured(path) => dir == Some(path),
            TemplateDirSetting::Missing => dir matches Some(d) && d@ == default_template_dir(),
            TemplateDirSetting::Invalid => dir is None,
        },
{
    match setting {
        TemplateDirSetting::Configured(path) => Some(path),
        TemplateDirSetting::Missing => {
            let d: Vec<u8> = vec![116u8, 101u8, 109u8, 112u8, 108u8, 97u8, 116u8, 101u8, 115u8, 47u8];
            Some(d)
        },
        TemplateDirSetting::Invalid => None,
    }
}

} // verus!
