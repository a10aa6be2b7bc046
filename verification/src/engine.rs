//! Setting up the Tera engine, loading templates into it from a directory,
//! reloading them, and rendering.
use crate::contrib::{
    each_group_brings_its_helpers, helper_names_differ, all_groups, contrib_filters_of, contrib_functions_of, contrib_tests_of, register_groups,
    ContribGroups,
};
use crate::tera_api::{
    builtin_filter_names, builtin_filters, builtin_function_names, builtin_functions,
    builtin_test_names, builtin_tests, Helper, default_autoescape, resolves, same_setup,
    str_from_utf8, tera_add_template_files, tera_autoescape, tera_autoescape_on,
    tera_fallback_prefixes, tera_filters, tera_full_reload, tera_functions, tera_glob,
    tera_glob_templates, tera_may_fail_add, tera_may_fail_render, keeps_manual_templates, text_pairs,
    tera_load_from_glob, tera_may_fail_load, tera_may_fail_reload, tera_may_load, tera_may_reload,
    tera_may_render, tera_new, tera_render, tera_template_names, tera_templates,
    tera_tests, file_paths, no_templates,
};
use vstd::prelude::*;
use vstd::utf8::{decode_utf8, valid_utf8};

verus! {

broadcast use vstd::utf8::group_utf8_lib;

/// The byte `/`.
pub open spec fn slash() -> u8 {
    47u8
}

/// The bytes `**/[!.]*` that follow the template directory in the glob: any
/// file, at any depth, whose name does not start with a dot. Dot-files, such
/// as editor swap files, are not templates.
pub open spec fn glob_tail() -> Seq<u8> {
    seq![42u8, 42u8, 47u8, 91u8, 33u8, 46u8, 93u8, 42u8]
}

/// The glob matching every template below `root`: `root` joined with `**` and
/// then `[!.]*`. As with `Path::join`, a separator is put between `root` and
/// `**` unless `root` is empty or already ends with one.
pub open spec fn template_glob(root: Seq<u8>) -> Seq<u8> {
    if root.len() == 0 || root.last() == slash() {
        root + glob_tail()
    } else {
        root.push(slash()) + glob_tail()
    }
}

/// The setup that [`init_with()`] gives a new engine: no templates and no
/// glob, autoescaping for `.html`, `.htm` and `.xml`, no fallback prefixes,
/// and the builtin filters, tests and functions with those of the selected
/// `tera-contrib` groups.
pub open spec fn initial_engine_with(t: tera::Tera, groups: ContribGroups) -> bool {
    &&& tera_templates(t) == no_templates()
    &&& tera_glob_templates(t) == Set::<Seq<char>>::empty()
    &&& tera_glob(t) == None::<Seq<char>>
    &&& tera_autoescape(t) == default_autoescape()
    &&& tera_fallback_prefixes(t) == Seq::<Seq<char>>::empty()
    &&& tera_filters(t) == builtin_filters().union_prefer_right(contrib_filters_of(groups))
    &&& tera_tests(t) == builtin_tests().union_prefer_right(contrib_tests_of(groups))
    &&& tera_functions(t) == builtin_functions().union_prefer_right(contrib_functions_of(groups))
}

/// The setup that [`init()`] gives a new engine: that of [`init_with()`]
/// with every `tera-contrib` group.
pub open spec fn initial_engine(t: tera::Tera) -> bool {
    initial_engine_with(t, all_groups())
}

/// The lengths and a few characters of the builtin helper names, enough to
/// tell each of them apart from the `tera-contrib` names.
proof fn builtin_names_differ()
    ensures
        "safe"@.len() == 4,
        "safe"@[0] == 's',
        "safe"@[1] == 'a',
        "default"@.len() == 7,
        "default"@[0] == 'd',
        "upper"@.len() == 5,
        "lower"@.len() == 5,
        "wordcount"@.len() == 9,
        "wordcount"@[0] == 'w',
        "escape"@.len() == 6,
        "escape"@[0] == 'e',
        "escape_html"@.len() == 11,
        "escape_html"@[0] == 'e',
        "escape_xml"@.len() == 10,
        "escape_xml"@[0] == 'e',
        "newlines_to_br"@.len() == 14,
        "pluralize"@.len() == 9,
        "pluralize"@[0] == 'p',
        "trim"@.len() == 4,
        "trim"@[0] == 't',
        "trim_start"@.len() == 10,
        "trim_start"@[0] == 't',
        "trim_end"@.len() == 8,
        "replace"@.len() == 7,
        "replace"@[0] == 'r',
        "capitalize"@.len() == 10,
        "capitalize"@[0] == 'c',
        "title"@.len() == 5,
        "truncate"@.len() == 8,
        "indent"@.len() == 6,
        "indent"@[0] == 'i',
        "str"@.len() == 3,
        "int"@.len() == 3,
        "float"@.len() == 5,
        "float"@[0] == 'f',
        "length"@.len() == 6,
        "length"@[0] == 'l',
        "reverse"@.len() == 7,
        "reverse"@[0] == 'r',
        "split"@.len() == 5,
        "abs"@.len() == 3,
        "round"@.len() == 5,
        "first"@.len() == 5,
        "last"@.len() == 4,
        "last"@[0] == 'l',
        "nth"@.len() == 3,
        "join"@.len() == 4,
        "join"@[0] == 'j',
        "sort"@.len() == 4,
        "sort"@[0] == 's',
        "sort"@[1] == 'o',
        "unique"@.len() == 6,
        "unique"@[0] == 'u',
        "get"@.len() == 3,
        "values"@.len() == 6,
        "values"@[0] == 'v',
        "keys"@.len() == 4,
        "keys"@[0] == 'k',
        "pairs"@.len() == 5,
        "group_by"@.len() == 8,
        "string"@.len() == 6,
        "string"@[0] == 's',
        "number"@.len() == 6,
        "number"@[0] == 'n',
        "map"@.len() == 3,
        "bool"@.len() == 4,
        "array"@.len() == 5,
        "array"@[1] == 'r',
        "integer"@.len() == 7,
        "none"@.len() == 4,
        "iterable"@.len() == 8,
        "iterable"@[0] == 'i',
        "defined"@.len() == 7,
        "undefined"@.len() == 9,
        "odd"@.len() == 3,
        "even"@.len() == 4,
        "divisible_by"@.len() == 12,
        "starting_with"@.len() == 13,
        "ending_with"@.len() == 11,
        "containing"@.len() == 10,
        "range"@.len() == 5,
        "throw"@.len() == 5,
{
    reveal_strlit("safe");
    reveal_strlit("default");
    reveal_strlit("upper");
    reveal_strlit("lower");
    reveal_strlit("wordcount");
    reveal_strlit("escape");
    reveal_strlit("escape_html");
    reveal_strlit("escape_xml");
    reveal_strlit("newlines_to_br");
    reveal_strlit("pluralize");
    reveal_strlit("trim");
    reveal_strlit("trim_start");
    reveal_strlit("trim_end");
    reveal_strlit("replace");
    reveal_strlit("capitalize");
    reveal_strlit("title");
    reveal_strlit("truncate");
    reveal_strlit("indent");
    reveal_strlit("str");
    reveal_strlit("int");
    reveal_strlit("float");
    reveal_strlit("length");
    reveal_strlit("reverse");
    reveal_strlit("split");
    reveal_strlit("abs");
    reveal_strlit("round");
    reveal_strlit("first");
    reveal_strlit("last");
    reveal_strlit("nth");
    reveal_strlit("join");
    reveal_strlit("sort");
    reveal_strlit("unique");
    reveal_strlit("get");
    reveal_strlit("values");
    reveal_strlit("keys");
    reveal_strlit("pairs");
    reveal_strlit("group_by");
    reveal_strlit("string");
    reveal_strlit("number");
    reveal_strlit("map");
    reveal_strlit("bool");
    reveal_strlit("array");
    reveal_strlit("integer");
    reveal_strlit("none");
    reveal_strlit("iterable");
    reveal_strlit("defined");
    reveal_strlit("undefined");
    reveal_strlit("odd");
    reveal_strlit("even");
    reveal_strlit("divisible_by");
    reveal_strlit("starting_with");
    reveal_strlit("ending_with");
    reveal_strlit("containing");
    reveal_strlit("range");
    reveal_strlit("throw");
}

/// An engine set up by [`init_with()`] holds the helpers of exactly the
/// selected `tera-contrib` groups, each bound to its own code, whatever the
/// other groups are, and every builtin filter, test and function besides.
pub proof fn initial_engine_has_chosen_helpers(t: tera::Tera, groups: ContribGroups)
    requires
        initial_engine_with(t, groups),
    ensures
        tera_filters(t).contains_key("b64_encode"@) == groups.base64,
        groups.base64 ==> tera_filters(t)["b64_encode"@] == Helper::B64Encode,
        tera_filters(t).contains_key("b64_decode"@) == groups.base64,
        groups.base64 ==> tera_filters(t)["b64_decode"@] == Helper::B64Decode,
        tera_filters(t).contains_key("date"@) == groups.date,
        groups.date ==> tera_filters(t)["date"@] == Helper::Date,
        tera_filters(t).contains_key("filesize_format"@) == groups.filesize_format,
        groups.filesize_format ==> tera_filters(t)["filesize_format"@] == Helper::FilesizeFormat,
        tera_filters(t).contains_key("format"@) == groups.format,
        groups.format ==> tera_filters(t)["format"@] == Helper::Format,
        tera_filters(t).contains_key("json_encode"@) == groups.json,
        groups.json ==> tera_filters(t)["json_encode"@] == Helper::JsonEncode,
        tera_filters(t).contains_key("shuffle"@) == groups.rand,
        groups.rand ==> tera_filters(t)["shuffle"@] == Helper::Shuffle,
        tera_filters(t).contains_key("striptags"@) == groups.regex,
        groups.regex ==> tera_filters(t)["striptags"@] == Helper::Striptags,
        tera_filters(t).contains_key("spaceless"@) == groups.regex,
        groups.regex ==> tera_filters(t)["spaceless"@] == Helper::Spaceless,
        tera_filters(t).contains_key("regex_replace"@) == groups.regex,
        groups.regex ==> tera_filters(t)["regex_replace"@] == Helper::RegexReplace,
        tera_filters(t).contains_key("slug"@) == groups.slug,
        groups.slug ==> tera_filters(t)["slug"@] == Helper::Slug,
        tera_filters(t).contains_key("urlencode"@) == groups.urlencode,
        groups.urlencode ==> tera_filters(t)["urlencode"@] == Helper::Urlencode,
        tera_filters(t).contains_key("urlencode_strict"@) == groups.urlencode,
        groups.urlencode ==> tera_filters(t)["urlencode_strict"@] == Helper::UrlencodeStrict,
        tera_tests(t).contains_key("before"@) == groups.date,
        groups.date ==> tera_tests(t)["before"@] == Helper::IsBefore,
        tera_tests(t).contains_key("after"@) == groups.date,
        groups.date ==> tera_tests(t)["after"@] == Helper::IsAfter,
        tera_tests(t).contains_key("matching"@) == groups.regex,
        groups.regex ==> tera_tests(t)["matching"@] == Helper::Matching,
        tera_functions(t).contains_key("now"@) == groups.date,
        groups.date ==> tera_functions(t)["now"@] == Helper::Now,
        tera_functions(t).contains_key("get_random"@) == groups.rand,
        groups.rand ==> tera_functions(t)["get_random"@] == Helper::GetRandom,
        forall|name: Seq<char>| #[trigger] builtin_filter_names().contains(name) ==> tera_filters(t).contains_key(name) && tera_filters(t)[name] == Helper::Builtin,
        forall|name: Seq<char>| #[trigger] builtin_test_names().contains(name) ==> tera_tests(t).contains_key(name) && tera_tests(t)[name] == Helper::Builtin,
        forall|name: Seq<char>| #[trigger] builtin_function_names().contains(name) ==> tera_functions(t).contains_key(name) && tera_functions(t)[name] == Helper::Builtin,
{
    helper_names_differ();
    builtin_names_differ();
    each_group_brings_its_helpers(groups);
}

/// An engine set up by [`init()`] holds every `tera-contrib` filter, test and
/// function, each bound to its own code.
pub proof fn initial_engine_has_every_helper(t: tera::Tera)
    requires
        initial_engine(t),
    ensures
        tera_filters(t)["b64_encode"@] == Helper::B64Encode,
        tera_filters(t)["b64_decode"@] == Helper::B64Decode,
        tera_filters(t)["date"@] == Helper::Date,
        tera_filters(t)["filesize_format"@] == Helper::FilesizeFormat,
        tera_filters(t)["format"@] == Helper::Format,
        tera_filters(t)["json_encode"@] == Helper::JsonEncode,
        tera_filters(t)["shuffle"@] == Helper::Shuffle,
        tera_filters(t)["striptags"@] == Helper::Striptags,
        tera_filters(t)["spaceless"@] == Helper::Spaceless,
        tera_filters(t)["regex_replace"@] == Helper::RegexReplace,
        tera_filters(t)["slug"@] == Helper::Slug,
        tera_filters(t)["urlencode"@] == Helper::Urlencode,
        tera_filters(t)["urlencode_strict"@] == Helper::UrlencodeStrict,
        tera_tests(t)["before"@] == Helper::IsBefore,
        tera_tests(t)["after"@] == Helper::IsAfter,
        tera_tests(t)["matching"@] == Helper::Matching,
        tera_functions(t)["now"@] == Helper::Now,
        tera_functions(t)["get_random"@] == Helper::GetRandom,
{
    initial_engine_has_chosen_helpers(t, all_groups());
}

/// Initializes a `Tera` instance, with autoescaping for `.html`, `.htm` and
/// `.xml` templates and the filters, tests and functions of the selected
/// `tera-contrib` groups registered.
pub fn init_with(groups: &ContribGroups) -> (tera: tera::Tera)
    ensures
        initial_engine_with(tera, *groups),
{
    let mut tera = tera_new();
    let suffixes = vec![".html".to_owned(), ".htm".to_owned(), ".xml".to_owned()];
    tera_autoescape_on(&mut tera, &suffixes);
    assert(suffixes@.map_values(|s: String| s@) =~= default_autoescape());
    register_groups(&mut tera, groups);
    tera
}

/// Initializes a `Tera` instance, with autoescaping for `.html`, `.htm` and
/// `.xml` templates and every `tera-contrib` filter, test and function
/// registered.
pub fn init() -> (tera: tera::Tera)
    ensures
        initial_engine(tera),
{
    let groups = ContribGroups::all();
    init_with(&groups)
}

/// The glob of a template directory is valid UTF-8 exactly when the directory
/// is: what is added to it is plain ASCII.
pub proof fn glob_utf8_matches_root(root: Seq<u8>)
    ensures
        valid_utf8(template_glob(root)) <==> valid_utf8(root),
{
    let tail = glob_tail();
    ascii_bytes_are_utf8(tail);
    let sep = seq![slash()];
    ascii_bytes_are_utf8(sep);
    let glob = template_glob(root);
    let n = root.len() as int;
    if valid_utf8(root) {
        if root.len() == 0 || root.last() == slash() {
            vstd::utf8::valid_utf8_concat(root, tail);
        } else {
            vstd::utf8::valid_utf8_concat(root, sep);
            assert(root.push(slash()) =~= root + sep);
            vstd::utf8::valid_utf8_concat(root.push(slash()), tail);
        }
    }
    if valid_utf8(glob) {
        assert(n < glob.len());
        assert(glob[n] == 42u8 || glob[n] == 47u8);
        vstd::utf8::is_char_boundary_iff_not_is_continuation_byte(glob, n);
        vstd::utf8::valid_utf8_split(glob, n);
        assert(glob.subrange(0, n) =~= root);
    }
}

/// Bytes below 128 are valid UTF-8, one character each.
proof fn ascii_bytes_are_utf8(s: Seq<u8>)
    requires
        forall|i: int| 0 <= i < s.len() ==> #[trigger] s[i] < 128,
    ensures
        valid_utf8(s),
    decreases s.len(),
{
    if s.len() > 0 {
        let b = s[0];
        assert(vstd::utf8::codepoint_width_1(b) == b as u32) by (bit_vector)
            requires
                b < 128,
        ;
        assert(vstd::utf8::pop_first_scalar(s) =~= s.drop_first());
        ascii_bytes_are_utf8(s.drop_first());
    }
}

/// A directory named with a trailing separator has the same glob as without
/// it: `templates/` and `templates` both give `templates/**/[!.]*`.
pub proof fn glob_ignores_trailing_separator(root: Seq<u8>)
    requires
        root.len() > 0,
        root.last() != slash(),
    ensures
        template_glob(root.push(slash())) == template_glob(root),
{
}

/// The glob starts with the template directory and ends with `**/[!.]*`, so
/// it only ever matches files below that directory.
pub proof fn glob_lies_below_root(root: Seq<u8>)
    ensures
        template_glob(root).len() >= root.len() + 8,
        template_glob(root).subrange(0, root.len() as int) == root,
        template_glob(root).subrange(
            template_glob(root).len() - 8,
            template_glob(root).len() as int,
        ) == glob_tail(),
{
    let g = template_glob(root);
    assert(g.subrange(0, root.len() as int) =~= root);
    assert(g.subrange(g.len() - 8, g.len() as int) =~= glob_tail());
}

/// The glob is the template directory, then one `/` unless the directory is
/// empty or already ends with one, then `**/[!.]*`, and nothing else: so it
/// matches every file that is not a dot-file, directly in the directory or
/// at any depth below it.
pub proof fn glob_is_root_then_pattern(root: Seq<u8>)
    ensures
        root.len() == 0 || root.last() == 47u8 ==> template_glob(root) == root + seq![
            42u8,
            42u8,
            47u8,
            91u8,
            33u8,
            46u8,
            93u8,
            42u8,
        ],
        root.len() > 0 && root.last() != 47u8 ==> template_glob(root) == root + seq![
            47u8,
            42u8,
            42u8,
            47u8,
            91u8,
            33u8,
            46u8,
            93u8,
            42u8,
        ],
{
    let tail = seq![42u8, 42u8, 47u8, 91u8, 33u8, 46u8, 93u8, 42u8];
    assert(glob_tail() =~= tail);
    if root.len() > 0 && root.last() != 47u8 {
        assert(root.push(47u8) + tail =~= root + seq![47u8].add(tail));
        assert(seq![47u8].add(tail) =~= seq![47u8, 42u8, 42u8, 47u8, 91u8, 33u8, 46u8, 93u8, 42u8]);
    }
}

/// Builds the glob of [`template_glob`] for the template directory `root`.
pub fn build_template_glob(root: &[u8]) -> (glob: Vec<u8>)
    ensures
        glob@ == template_glob(root@),
{
    let mut glob: Vec<u8> = Vec::new();
    let mut i: usize = 0;
    while i < root.len()
        invariant
            i <= root@.len(),
            glob@ == root@.subrange(0, i as int),
        decreases root@.len() - i,
    {
        glob.push(root[i]);
        i = i + 1;
        assert(glob@ =~= root@.subrange(0, i as int));
    }
    assert(glob@ =~= root@);
    if root.len() > 0 && root[root.len() - 1] != 47u8 {
        glob.push(47u8);
    }
    glob.push(42u8);
    glob.push(42u8);
    glob.push(47u8);
    glob.push(91u8);
    glob.push(33u8);
    glob.push(46u8);
    glob.push(93u8);
    glob.push(42u8);
    assert(glob@ =~= template_glob(root@));
    glob
}

/// What an engine call that succeeds or fails amounts to: its value when it
/// succeeded, nothing when it failed.
pub fn outcome<T>(result: Result<T, tera::Error>) -> (r: Option<T>)
    ensures
        match result {
            Ok(v) => r == Some(v),
            Err(_) => r is None,
        },
{
    match result {
        Ok(v) => Some(v),
        Err(_) => None,
    }
}

/// Why [`load()`] loaded nothing.
#[derive(Debug)]
pub enum LoadError {
    /// The template directory's path is not valid UTF-8, so no glob can be
    /// handed to the engine.
    NotUtf8,
    /// The engine failed to load the templates.
    Engine(tera::Error),
}

/// What the engine's answer to loading amounts to.
pub fn loaded(result: Result<(), tera::Error>) -> (r: Result<(), LoadError>)
    ensures
        match result {
            Ok(()) => r is Ok,
            Err(e) => r == Err::<(), LoadError>(LoadError::Engine(e)),
        },
{
    match result {
        Ok(()) => Ok(()),
        Err(e) => Err(LoadError::Engine(e)),
    }
}

/// Registers every file below `root` but dot-files, named by its path
/// relative to `root`. Tera remembers the glob so the templates can be
/// reloaded later.
///
/// Fails with [`LoadError::NotUtf8`], changing nothing, exactly when `root` is
/// not valid UTF-8 (the glob is then not valid UTF-8 either). Otherwise the
/// glob [`template_glob`] of `root` is handed to Tera, which reads the
/// directory: whether that succeeds depends on what is on disk. If it fails,
/// nothing changes and the engine's error is returned; if it succeeds, the
/// engine is in a state that loading this glob may give, the glob is
/// remembered, and the templates added by hand stay unless a file read
/// takes their name. The engine's setup (autoescaping, prefixes, helpers) never
/// changes.
pub fn load(tera: &mut tera::Tera, root: &[u8]) -> (r: Result<(), LoadError>)
    ensures
        same_setup(*old(tera), *final(tera)),
        (r matches Err(LoadError::NotUtf8)) <==> !valid_utf8(root@),
        r is Err ==> *final(tera) == *old(tera),
        r matches Err(LoadError::Engine(_)) ==> tera_may_fail_load(
            *old(tera),
            decode_utf8(template_glob(root@)),
        ),
        r is Ok ==> tera_glob(*final(tera)) == Some(decode_utf8(template_glob(root@))),
        r is Ok ==> tera_may_load(*old(tera), decode_utf8(template_glob(root@)), *final(tera)),
        r is Ok ==> keeps_manual_templates(*old(tera), *final(tera)),
{
    let glob = build_template_glob(root);
    proof {
        glob_utf8_matches_root(root@);
    }
    let glob_str = match str_from_utf8(glob.as_slice()) {
        Some(s) => s,
        None => return Err(LoadError::NotUtf8),
    };
    proof {
        vstd::utf8::encode_utf8_decode_utf8(glob_str@);
    }
    loaded(tera_load_from_glob(tera, glob_str))
}

/// Reloads every template previously loaded by [`load()`] from disk. Without a
/// previous load there is nothing to reload from, and it fails. If it fails,
/// `tera` keeps its existing templates and the engine's error is returned;
/// if it succeeds, `tera` is in a state that reloading may give, and the
/// templates added by hand (such as those of the `finalize` callback) stay
/// unless a file read takes their name. Either way the glob and the setup
/// stay.
pub fn reload(tera: &mut tera::Tera) -> (r: Result<(), tera::Error>)
    ensures
        same_setup(*old(tera), *final(tera)),
        tera_glob(*final(tera)) == tera_glob(*old(tera)),
        tera_glob(*old(tera)) is None ==> r is Err,
        r is Err ==> *final(tera) == *old(tera),
        r is Err ==> tera_may_fail_reload(*old(tera)),
        r is Ok ==> tera_may_reload(*old(tera), *final(tera)),
        r is Ok ==> keeps_manual_templates(*old(tera), *final(tera)),
{
    tera_full_reload(tera)
}

/// Why [`render()`] rendered nothing.
#[derive(Debug)]
pub enum RenderError {
    /// No template of that name exists.
    NotFound,
    /// The caller's data could not be turned into a Tera context.
    Context(tera::Error),
    /// The engine failed to render the template.
    Engine(tera::Error),
}

/// What the engine's answer to rendering amounts to.
pub fn rendered(result: Result<String, tera::Error>) -> (r: Result<String, RenderError>)
    ensures
        match result {
            Ok(s) => r == Ok::<String, RenderError>(s),
            Err(e) => r == Err::<String, RenderError>(RenderError::Engine(e)),
        },
{
    match result {
        Ok(s) => Ok(s),
        Err(e) => Err(RenderError::Engine(e)),
    }
}

/// Renders the template `template` with `context`, the result of turning the
/// caller's data into a Tera context. Nothing is rendered when the template
/// does not exist, or else when the context could not be made; otherwise the
/// engine renders this template with this context, and what it produces (or
/// whether it fails) is up to the engine.
pub fn render(tera: &tera::Tera, template: &str, context: Result<tera::Context, tera::Error>) -> (r:
    Result<String, RenderError>)
    ensures
        (r matches Err(RenderError::NotFound)) <==> !resolves(*tera, template@),
        (r matches Err(RenderError::Context(_))) <==> resolves(*tera, template@)
            && context is Err,
        r matches Err(RenderError::Context(e)) ==> context == Err::<tera::Context, tera::Error>(e),
        r matches Err(RenderError::Engine(_)) ==> resolves(*tera, template@) && context is Ok,
        r matches Err(RenderError::Engine(_)) ==> context matches Ok(c) && tera_may_fail_render(
            *tera,
            template@,
            c,
        ),
        r matches Ok(out) ==> context matches Ok(c) && tera_may_render(*tera, template@, c, out@),
{
    if !crate::tera_api::tera_contains_template(tera, template) {
        return Err(RenderError::NotFound);
    }
    let tera_ctx = match context {
        Ok(ctx) => ctx,
        Err(e) => return Err(RenderError::Context(e)),
    };
    rendered(tera_render(tera, template, &tera_ctx))
}

/// What is known of a template before it is loaded: where it lives, if it
/// lives in a file.
pub struct TemplateInfo {
    /// The path of the template's file, if any.
    pub path: Option<String>,
}

/// The `(path, name)` pairs of the templates that live in a file, in order.
pub open spec fn named_templates(templates: Seq<(String, TemplateInfo)>) -> Seq<(String, String)>
    decreases templates.len(),
{
    if templates.len() == 0 {
        Seq::empty()
    } else {
        let rest = named_templates(templates.drop_last());
        let (name, info) = templates.last();
        match info.path {
            Some(path) => rest.push((path, name)),
            None => rest,
        }
    }
}

/// The path of each template that lives in a file, by name; when a name
/// comes more than once, the last one wins.
pub open spec fn template_files(templates: Seq<(String, TemplateInfo)>) -> Map<Seq<char>, Seq<char>> {
    file_paths(named_templates(templates))
}

/// Whether a template lives in a file.
pub open spec fn lives_in_file() -> spec_fn((String, TemplateInfo)) -> bool {
    |entry: (String, TemplateInfo)| entry.1.path is Some
}

/// The templates that live in a file, in order.
pub open spec fn file_templates(templates: Seq<(String, TemplateInfo)>) -> Seq<(String, TemplateInfo)> {
    templates.filter(lives_in_file())
}

/// Templates that live in no file play no part in building an engine: the
/// pairs [`Engines::init`] hands to the engine, and so the templates it
/// registers and their paths, are the same once every template without a
/// path is removed; so is whether adding them to an engine may fail.
pub proof fn pathless_templates_add_nothing(templates: Seq<(String, TemplateInfo)>)
    ensures
        named_templates(templates) == named_templates(file_templates(templates)),
        template_files(templates) == template_files(file_templates(templates)),
        forall|t: tera::Tera|
            #[trigger] tera_may_fail_add(t, text_pairs(named_templates(templates)))
                == tera_may_fail_add(t, text_pairs(named_templates(file_templates(templates)))),
    decreases templates.len(),
{
    if templates.len() > 0 {
        let rest = templates.drop_last();
        pathless_templates_add_nothing(rest);
        rest.lemma_filter_push(templates.last(), lives_in_file());
        assert(rest.push(templates.last()) =~= templates);
        let kept = file_templates(templates);
        if templates.last().1.path is Some {
            assert(kept.drop_last() =~= file_templates(rest));
        }
    }
}

/// Every template that lives in a file is handed to the engine, under its
/// name and with its path.
pub proof fn every_file_template_is_named(templates: Seq<(String, TemplateInfo)>, i: int)
    requires
        0 <= i < templates.len(),
        templates[i].1.path is Some,
    ensures
        named_templates(templates).contains((templates[i].1.path->Some_0, templates[i].0)),
    decreases templates.len(),
{
    let named = named_templates(templates);
    let rest = named_templates(templates.drop_last());
    if i == templates.len() - 1 {
        assert(named.last() == (templates[i].1.path->Some_0, templates[i].0));
    } else {
        every_file_template_is_named(templates.drop_last(), i);
        let k = choose|k: int| 0 <= k < rest.len() && rest[k] == (
            templates[i].1.path->Some_0,
            templates[i].0,
        );
        assert(named[k] == rest[k]);
    }
}

/// Only templates that live in a file are handed to the engine: each pair is
/// the path and name of one of them.
pub proof fn only_file_templates_are_named(templates: Seq<(String, TemplateInfo)>, j: int)
    requires
        0 <= j < named_templates(templates).len(),
    ensures
        exists|i: int|
            0 <= i < templates.len() && templates[i].1.path == Some(named_templates(templates)[j].0)
                && #[trigger] templates[i].0 == named_templates(templates)[j].1,
    decreases templates.len(),
{
    let named = named_templates(templates);
    let rest = named_templates(templates.drop_last());
    let last = templates.len() - 1;
    if j < rest.len() {
        assert(named[j] == rest[j]);
        only_file_templates_are_named(templates.drop_last(), j);
        let i = choose|i: int|
            0 <= i < templates.drop_last().len() && templates.drop_last()[i].1.path == Some(rest[j].0)
                && #[trigger] templates.drop_last()[i].0 == rest[j].1;
        assert(templates[i] == templates.drop_last()[i]);
    } else {
        assert(templates[last].0 == named[j].1);
    }
}

/// Collects the `(path, name)` pairs of the templates that have a path.
pub fn collect_named_templates(templates: &Vec<(String, TemplateInfo)>) -> (named: Vec<
    (String, String),
>)
    ensures
        named@ == named_templates(templates@),
{
    let mut named: Vec<(String, String)> = Vec::new();
    let mut i: usize = 0;
    while i < templates.len()
        invariant
            i <= templates@.len(),
            named@ == named_templates(templates@.subrange(0, i as int)),
        decreases templates@.len() - i,
    {
        let ghost prefix = templates@.subrange(0, i as int + 1);
        assert(prefix.drop_last() =~= templates@.subrange(0, i as int));
        let (name, info) = &templates[i];
        match &info.path {
            Some(path) => {
                named.push((path.clone(), name.clone()));
            },
            None => {},
        }
        i = i + 1;
    }
    assert(templates@.subrange(0, templates@.len() as int) =~= templates@);
    named
}

/// A structure exposing access to the templating engine.
pub struct Engines {
    /// The Tera templating engine.
    pub tera: tera::Tera,
}

impl Engines {
    /// Builds an engine holding, under its name, every template that lives in
    /// a file. The engine is set up as [`init()`] sets it up. Whether the files
    /// can be read and parsed depends on the disk; if they cannot, there is no
    /// engine, and this is only so where adding these files to an engine just
    /// set up may fail. When no template lives in a file there is nothing to read, and
    /// the engine is always built.
    pub fn init(templates: &Vec<(String, TemplateInfo)>) -> (engines: Option<Engines>)
        ensures
            named_templates(templates@).len() == 0 ==> engines is Some,
            engines matches Some(e) ==> {
                &&& tera_templates(e.tera).dom() == template_files(templates@).dom()
                &&& forall|name: Seq<char>| #[trigger]
                    template_files(templates@).contains_key(name) ==> tera_templates(
                        e.tera,
                    )[name].1 == Some(template_files(templates@)[name])
                &&& tera_glob(e.tera) == None::<Seq<char>>
                &&& tera_autoescape(e.tera) == default_autoescape()
                &&& tera_fallback_prefixes(e.tera) == Seq::<Seq<char>>::empty()
                &&& tera_glob_templates(e.tera) == Set::<Seq<char>>::empty()
                &&& tera_filters(e.tera) == builtin_filters().union_prefer_right(
                    contrib_filters_of(all_groups()),
                )
                &&& tera_tests(e.tera) == builtin_tests().union_prefer_right(
                    contrib_tests_of(all_groups()),
                )
                &&& tera_functions(e.tera) == builtin_functions().union_prefer_right(
                    contrib_functions_of(all_groups()),
                )
            },
            engines is None ==> exists|t: tera::Tera|
                initial_engine(t) && #[trigger] tera_may_fail_add(
                    t,
                    text_pairs(named_templates(templates@)),
                ),
    {
        let named = collect_named_templates(templates);
        let mut tera = init();
        let ghost fresh = tera;
        match outcome(tera_add_template_files(&mut tera, &named)) {
            Some(()) => {
                assert(tera_templates(tera).dom() =~= template_files(templates@).dom());
                assert(tera_glob_templates(tera) =~= Set::<Seq<char>>::empty());
                Some(Engines { tera })
            },
            None => {
                assert(initial_engine(fresh) && tera_may_fail_add(
                    fresh,
                    text_pairs(named_templates(templates@)),
                ));
                None
            },
        }
    }

    /// Renders the template `name`, as [`render()`] does.
    pub fn render(&self, name: &str, context: Result<tera::Context, tera::Error>) -> (r: Result<
        String,
        RenderError,
    >)
        ensures
            (r matches Err(RenderError::NotFound)) <==> !resolves(self.tera, name@),
            (r matches Err(RenderError::Context(_))) <==> resolves(self.tera, name@)
                && context is Err,
            r matches Err(RenderError::Context(e)) ==> context == Err::<tera::Context, tera::Error>(
                e,
            ),
            r matches Err(RenderError::Engine(_)) ==> resolves(self.tera, name@) && context is Ok,
            r matches Err(RenderError::Engine(_)) ==> context matches Ok(c) && tera_may_fail_render(
                self.tera,
                name@,
                c,
            ),
            r matches Ok(out) ==> context matches Ok(c) && tera_may_render(self.tera, name@, c, out@),
    {
        render(&self.tera, name, context)
    }

    /// The names of the registered templates, each once, in no particular
    /// order.
    pub fn templates(&self) -> (names: Vec<String>)
        ensures
            names@.map_values(|s: String| s@).to_set() == tera_templates(self.tera).dom(),
            names@.map_values(|s: String| s@).no_duplicates(),
    {
        tera_template_names(&self.tera)
    }
}

} // verus!
