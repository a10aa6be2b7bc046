//! The parts of the Tera engine that this library relies on, and what it
//! relies on them to do.
//!
//! A `Tera` value is opaque to the verifier. What the library needs to know of
//! it is described by a few named views: the templates it holds (by name, with
//! each one's source text and file path), the glob it loaded them from, the
//! suffixes that turn autoescaping on, the fallback prefixes used to resolve
//! names, and which helper each registered filter, test and function name is
//! bound to. Each wrapper below says how the call it makes changes those views,
//! as the Tera source shows it.
use vstd::prelude::*;
use vstd::string::StringSliceAdditionalSpecFns;

verus! {

/// The template engine.
#[verifier::external_type_specification]
#[verifier::external_body]
pub struct ExTera(tera::Tera);

/// The data a template is rendered with.
#[verifier::external_type_specification]
#[verifier::external_body]
pub struct ExTeraContext(tera::Context);

/// An error reported by the template engine.
#[verifier::external_type_specification]
#[verifier::external_body]
pub struct ExTeraError(tera::Error);

/// The templates that `t` holds: each name is mapped to the template's source
/// text and to the path of the file it was read from, if it was read from one.
pub uninterp spec fn tera_templates(t: tera::Tera) -> Map<Seq<char>, (Seq<char>, Option<Seq<char>>)>;

/// The names of the templates of `t` that were read through its glob, as
/// opposed to added by hand.
pub uninterp spec fn tera_glob_templates(t: tera::Tera) -> Set<Seq<char>>;

/// The glob that `t` last loaded its templates from, if any.
pub uninterp spec fn tera_glob(t: tera::Tera) -> Option<Seq<char>>;

/// The template-name suffixes for which `t` escapes HTML.
pub uninterp spec fn tera_autoescape(t: tera::Tera) -> Seq<Seq<char>>;

/// The prefixes `t` tries, in order, when a template name is not found as is.
pub uninterp spec fn tera_fallback_prefixes(t: tera::Tera) -> Seq<Seq<char>>;

/// The filters registered with `t`: each name with the helper bound to it.
pub uninterp spec fn tera_filters(t: tera::Tera) -> Map<Seq<char>, Helper>;

/// The tests registered with `t`: each name with the helper bound to it.
pub uninterp spec fn tera_tests(t: tera::Tera) -> Map<Seq<char>, Helper>;

/// The functions registered with `t`: each name with the helper bound to it.
pub uninterp spec fn tera_functions(t: tera::Tera) -> Map<Seq<char>, Helper>;

/// Whether `out` is a possible rendering of the template `name` of `t` with
/// `context`. Rendering may call helpers that read the clock or draw random
/// numbers, so one template and context may have several.
pub uninterp spec fn tera_may_render(
    t: tera::Tera,
    name: Seq<char>,
    context: tera::Context,
    out: Seq<char>,
) -> bool;

/// Whether `after` is a possible state of `before` once it has successfully
/// loaded the templates that `glob` matches. Which files match, and what
/// they hold, depends on the disk, so one engine and glob may have several.
pub uninterp spec fn tera_may_load(before: tera::Tera, glob: Seq<char>, after: tera::Tera) -> bool;

/// Whether loading the templates that `glob` matches into `before` may fail:
/// a file that cannot be read or parsed, or a glob that is not well formed.
pub uninterp spec fn tera_may_fail_load(before: tera::Tera, glob: Seq<char>) -> bool;

/// Whether `after` is a possible state of `before` once it has successfully
/// loaded its templates again from its glob.
pub uninterp spec fn tera_may_reload(before: tera::Tera, after: tera::Tera) -> bool;

/// Whether loading the templates of `before` again from its glob may fail.
pub uninterp spec fn tera_may_fail_reload(before: tera::Tera) -> bool;

/// Whether rendering the template `name` of `t` with `context` may fail: a
/// missing variable, a helper that reports an error, and the like.
pub uninterp spec fn tera_may_fail_render(t: tera::Tera, name: Seq<char>, context: tera::Context) -> bool;

/// Whether adding the `(path, name)` files `files` to `t` may fail: a file
/// that cannot be read or parsed, or a set of templates whose inheritance
/// cannot be resolved.
pub uninterp spec fn tera_may_fail_add(t: tera::Tera, files: Seq<(Seq<char>, Seq<char>)>) -> bool;

/// The text of each `(path, name)` pair.
pub open spec fn text_pairs(files: Seq<(String, String)>) -> Seq<(Seq<char>, Seq<char>)> {
    files.map_values(|f: (String, String)| (f.0@, f.1@))
}

/// What loading from a glob does to the templates added by hand, as
/// `tera::Tera::load_from_glob` does it: the templates read through the glob
/// before are dropped, every template added by hand stays unless a file read
/// through the glob takes its name, and every template not read through the
/// glob now was one added by hand before.
pub open spec fn keeps_manual_templates(before: tera::Tera, after: tera::Tera) -> bool {
    &&& tera_glob_templates(after).subset_of(tera_templates(after).dom())
    &&& forall|name: Seq<char>|
        #[trigger] tera_templates(before).contains_key(name) && !tera_glob_templates(
            before,
        ).contains(name) ==> tera_templates(after).contains_key(name) && (tera_glob_templates(
            after,
        ).contains(name) || tera_templates(after)[name] == tera_templates(before)[name])
    &&& forall|name: Seq<char>|
        #[trigger] tera_templates(after).contains_key(name) && !tera_glob_templates(
            after,
        ).contains(name) ==> tera_templates(before).contains_key(name) && !tera_glob_templates(
            before,
        ).contains(name) && tera_templates(after)[name] == tera_templates(before)[name]
}

/// Which code a filter, test or function name is bound to: one of Tera's own
/// builtins, or one of the `tera-contrib` helpers.
pub enum Helper {
    Builtin,
    B64Encode,
    B64Decode,
    Now,
    Date,
    IsBefore,
    IsAfter,
    FilesizeFormat,
    Format,
    JsonEncode,
    GetRandom,
    Shuffle,
    Striptags,
    Spaceless,
    RegexReplace,
    Matching,
    Slug,
    Urlencode,
    UrlencodeStrict,
}

/// Whether `name` resolves to a template of `t`: either it is the name of a
/// template, or some fallback prefix followed by it is.
pub open spec fn resolves(t: tera::Tera, name: Seq<char>) -> bool {
    ||| tera_templates(t).dom().contains(name)
    ||| exists|i: int|
        0 <= i < tera_fallback_prefixes(t).len() && #[trigger] tera_templates(t).dom().contains(
            tera_fallback_prefixes(t)[i] + name,
        )
}

/// `a` and `b` agree on everything but their templates and glob.
pub open spec fn same_setup(a: tera::Tera, b: tera::Tera) -> bool {
    &&& tera_autoescape(a) == tera_autoescape(b)
    &&& tera_fallback_prefixes(a) == tera_fallback_prefixes(b)
    &&& tera_filters(a) == tera_filters(b)
    &&& tera_tests(a) == tera_tests(b)
    &&& tera_functions(a) == tera_functions(b)
}

/// `b` is `a` with nothing changed but its registered helpers.
pub open spec fn same_but_helpers(a: tera::Tera, b: tera::Tera) -> bool {
    &&& tera_templates(a) == tera_templates(b)
    &&& tera_glob_templates(a) == tera_glob_templates(b)
    &&& tera_glob(a) == tera_glob(b)
    &&& tera_autoescape(a) == tera_autoescape(b)
    &&& tera_fallback_prefixes(a) == tera_fallback_prefixes(b)
}

/// The names of the filters every new `Tera` comes with.
pub open spec fn builtin_filter_names() -> Set<Seq<char>> {
    set![
        "safe"@, "default"@, "upper"@, "lower"@, "wordcount"@, "escape"@,
        "escape_html"@, "escape_xml"@, "newlines_to_br"@, "pluralize"@, "trim"@,
        "trim_start"@, "trim_end"@, "replace"@, "capitalize"@, "title"@,
        "truncate"@, "indent"@, "str"@, "int"@, "float"@, "length"@, "reverse"@,
        "split"@, "abs"@, "round"@, "first"@, "last"@, "nth"@, "join"@, "sort"@,
        "unique"@, "get"@, "values"@, "keys"@, "pairs"@, "group_by"@
    ]
}

/// The names of the tests every new `Tera` comes with.
pub open spec fn builtin_test_names() -> Set<Seq<char>> {
    set![
        "string"@, "number"@, "map"@, "bool"@, "array"@, "integer"@, "float"@,
        "none"@, "iterable"@, "defined"@, "undefined"@, "odd"@, "even"@,
        "divisible_by"@, "starting_with"@, "ending_with"@, "containing"@
    ]
}

/// The names of the functions every new `Tera` comes with.
pub open spec fn builtin_function_names() -> Set<Seq<char>> {
    set!["range"@, "throw"@]
}

/// The filters every new `Tera` comes with, each bound to a builtin.
pub open spec fn builtin_filters() -> Map<Seq<char>, Helper> {
    builtin_filter_names().mk_map(|name: Seq<char>| Helper::Builtin)
}

/// The tests every new `Tera` comes with, each bound to a builtin.
pub open spec fn builtin_tests() -> Map<Seq<char>, Helper> {
    builtin_test_names().mk_map(|name: Seq<char>| Helper::Builtin)
}

/// The functions every new `Tera` comes with, each bound to a builtin.
pub open spec fn builtin_functions() -> Map<Seq<char>, Helper> {
    builtin_function_names().mk_map(|name: Seq<char>| Helper::Builtin)
}

/// The templates of an engine that holds none.
pub open spec fn no_templates() -> Map<Seq<char>, (Seq<char>, Option<Seq<char>>)> {
    Map::empty()
}

/// The suffixes a new `Tera` autoescapes.
pub open spec fn default_autoescape() -> Seq<Seq<char>> {
    seq![".html"@, ".htm"@, ".xml"@]
}

/// `tera::Tera::default`: no templates (so none read through a glob), no
/// glob, no fallback prefixes,
/// autoescaping for `.html`, `.htm` and `.xml`, and the builtin filters, tests
/// and functions.
#[verifier::external_body]
pub fn tera_new() -> (t: tera::Tera)
    ensures
        tera_templates(t) == no_templates(),
        tera_glob_templates(t) == Set::<Seq<char>>::empty(),
        tera_glob(t) == None::<Seq<char>>,
        tera_autoescape(t) == default_autoescape(),
        tera_fallback_prefixes(t) == Seq::<Seq<char>>::empty(),
        tera_filters(t) == builtin_filters(),
        tera_tests(t) == builtin_tests(),
        tera_functions(t) == builtin_functions(),
{
    tera::Tera::default()
}

/// `tera::Tera::autoescape_on`: replaces the autoescape suffixes by
/// `suffixes`, in order, and changes nothing else the views describe.
#[verifier::external_body]
pub fn tera_autoescape_on(t: &mut tera::Tera, suffixes: &Vec<String>)
    ensures
        tera_autoescape(*final(t)) == suffixes@.map_values(|s: String| s@),
        tera_templates(*final(t)) == tera_templates(*old(t)),
        tera_glob_templates(*final(t)) == tera_glob_templates(*old(t)),
        tera_glob(*final(t)) == tera_glob(*old(t)),
        tera_fallback_prefixes(*final(t)) == tera_fallback_prefixes(*old(t)),
        tera_filters(*final(t)) == tera_filters(*old(t)),
        tera_tests(*final(t)) == tera_tests(*old(t)),
        tera_functions(*final(t)) == tera_functions(*old(t)),
{
    t.autoescape_on(suffixes.clone())
}

/// `tera::Tera::load_from_glob`: reads every file the glob matches from disk.
/// Whether it succeeds, and which templates it then holds, depends on the
/// disk: a success is a possible outcome of loading this glob into this
/// engine, and a failure one that loading it may have. Which files it read
/// is left unsaid; the templates it then holds are those it read, marked as
/// read through the glob, and the ones added by hand, but for those a file
/// took the name of. On failure Tera puts its templates and glob back
/// as they were, so the engine is as it was; on success the glob is
/// remembered. Either way the setup (autoescaping, prefixes, helpers) is
/// untouched.
#[verifier::external_body]
pub fn tera_load_from_glob(t: &mut tera::Tera, glob: &str) -> (r: Result<(), tera::Error>)
    ensures
        same_setup(*old(t), *final(t)),
        r is Err ==> *final(t) == *old(t),
        r is Err ==> tera_may_fail_load(*old(t), glob@),
        r is Ok ==> tera_glob(*final(t)) == Some(glob@),
        r is Ok ==> tera_may_load(*old(t), glob@, *final(t)),
        r is Ok ==> keeps_manual_templates(*old(t), *final(t)),
{
    t.load_from_glob(glob)
}

/// `tera::Tera::full_reload`: loads again from the remembered glob. Without
/// one it fails; a failure changes nothing; a success keeps the glob. A
/// success is a possible outcome of reloading this engine, and a failure one
/// that reloading it may have. Which files it reads depends on the disk and
/// is left unsaid; as with `load_from_glob`, which it calls, the templates
/// added by hand stay unless a file takes their name.
#[verifier::external_body]
pub fn tera_full_reload(t: &mut tera::Tera) -> (r: Result<(), tera::Error>)
    ensures
        same_setup(*old(t), *final(t)),
        tera_glob(*final(t)) == tera_glob(*old(t)),
        tera_glob(*old(t)) is None ==> r is Err,
        r is Err ==> *final(t) == *old(t),
        r is Err ==> tera_may_fail_reload(*old(t)),
        r is Ok ==> tera_may_reload(*old(t), *final(t)),
        r is Ok ==> keeps_manual_templates(*old(t), *final(t)),
{
    t.full_reload()
}

/// `tera::Tera::add_template_files`: reads each `(path, name)` file and adds it
/// under `name`, remembering its path (the last file given for a name wins).
/// Whether the files can be read and parsed, and so what each one holds,
/// depends on the disk: a failure is one that adding these files to this
/// engine may have, and changes nothing. A template added this way is not
/// read through a glob, so its name leaves the ones that were. Given no files, an engine
/// that holds no templates has nothing to read and nothing to check, and the
/// call succeeds.
#[verifier::external_body]
pub fn tera_add_template_files(t: &mut tera::Tera, files: &Vec<(String, String)>) -> (r: Result<
    (),
    tera::Error,
>)
    ensures
        same_setup(*old(t), *final(t)),
        tera_glob(*final(t)) == tera_glob(*old(t)),
        r is Err ==> tera_templates(*final(t)) == tera_templates(*old(t)),
        r is Err ==> tera_glob_templates(*final(t)) == tera_glob_templates(*old(t)),
        r is Err ==> tera_may_fail_add(*old(t), text_pairs(files@)),
        r is Ok ==> tera_glob_templates(*final(t)) == tera_glob_templates(*old(t)).difference(
            file_paths(files@).dom(),
        ),
        r is Ok ==> tera_templates(*final(t)).dom() == tera_templates(*old(t)).dom().union(
            file_paths(files@).dom(),
        ),
        r is Ok ==> forall|name: Seq<char>|
            #[trigger] file_paths(files@).contains_key(name) ==> tera_templates(
                *final(t),
            )[name].1 == Some(file_paths(files@)[name]),
        r is Ok ==> forall|name: Seq<char>|
            #[trigger] tera_templates(*old(t)).contains_key(name) && !file_paths(
                files@,
            ).contains_key(name) ==> tera_templates(*final(t))[name] == tera_templates(
                *old(t),
            )[name],
        files@.len() == 0 && tera_templates(*old(t)).dom().is_empty() ==> r is Ok,
{
    t.add_template_files(files.iter().map(|(path, name)| (path.as_str(), Some(name.as_str()))))
}

/// The path of the file given last for each name among `(path, name)` pairs.
pub open spec fn file_paths(files: Seq<(String, String)>) -> Map<Seq<char>, Seq<char>>
    decreases files.len(),
{
    if files.len() == 0 {
        Map::empty()
    } else {
        file_paths(files.drop_last()).insert(files.last().1@, files.last().0@)
    }
}

/// `tera::Tera::contains_template`: whether the name resolves to a template.
#[verifier::external_body]
pub fn tera_contains_template(t: &tera::Tera, name: &str) -> (r: bool)
    ensures
        r == resolves(*t, name@),
{
    t.contains_template(name)
}

/// `tera::Tera::render`. What it produces depends on the template, the context
/// and, through helpers such as `now` or `get_random`, on the clock and on
/// chance: a success is a possible rendering of this template with this
/// context, a failure one that rendering it with this context may have, and
/// a name that does not resolve fails.
#[verifier::external_body]
pub fn tera_render(t: &tera::Tera, name: &str, context: &tera::Context) -> (r: Result<
    String,
    tera::Error,
>)
    ensures
        r is Ok ==> resolves(*t, name@),
        r matches Ok(out) ==> tera_may_render(*t, name@, *context, out@),
        r is Err ==> tera_may_fail_render(*t, name@, *context),
{
    t.render(name, context)
}

/// `tera::Tera::get_template_names`, collected: every template name once, in
/// an order that Tera leaves unspecified.
#[verifier::external_body]
pub fn tera_template_names(t: &tera::Tera) -> (names: Vec<String>)
    ensures
        names@.map_values(|s: String| s@).to_set() == tera_templates(*t).dom(),
        names@.map_values(|s: String| s@).no_duplicates(),
{
    t.get_template_names().map(|name| name.to_string()).collect()
}

/// `std::str::from_utf8`: the bytes as a string exactly when they are valid
/// UTF-8.
#[verifier::external_body]
pub fn str_from_utf8(bytes: &[u8]) -> (s: Option<&str>)
    ensures
        s is Some <==> vstd::utf8::valid_utf8(bytes@),
        s matches Some(s) ==> s.spec_bytes() == bytes@,
{
    std::str::from_utf8(bytes).ok()
}

} // verus!
