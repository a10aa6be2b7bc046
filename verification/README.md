# rocket_tera

Tera templating support for Rocket, with its core verified by Verus.

- `src/` is the verified library:
  - `tera_api.rs` describes the parts of the Tera engine the library uses:
    named views of an engine (its templates with their sources and paths, glob,
    autoescape suffixes, fallback prefixes, and the helper bound to each
    filter, test and function name, plus what may come of loading, reloading
    and rendering) and the wrappers that call Tera,
    each with what the Tera source shows the call does to those views.
  - `contrib.rs` registers the `tera-contrib` filters, tests and functions,
    all of them or chosen groups.
  - `engine.rs` sets an engine up (with every `tera-contrib` group, or the
    chosen ones), builds the glob for a template directory,
    loads and reloads templates, and renders them; it also holds `Engines`.
  - `context.rs` holds the template context and the steps that build it, with
    the user's `register` and `finalize` callbacks run between them, the
    reload decision taken on directory-watcher events,
    and the choice of the template directory from the configuration.
- `app/` is the Rocket side: the fairing, the `notify` watcher, path
  normalization with `normpath`, and logging.
- `tests/` exercises the library against the real engine.
