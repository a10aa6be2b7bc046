//! Registration of the `tera-contrib` filters, functions and tests.
//!
//! Tera 2 dropped the builtins that needed third-party dependencies; they live
//! in `tera-contrib` now. Rather than making every user register them one by
//! one, this library registers them, each under the name its documentation
//! uses: all of them when an engine is set up with `engine::init`, or the
//! chosen groups (one per `tera-contrib` feature) with `engine::init_with`
//! and [`register_groups`]. This runs before the
//! user's `register` callback, so a name registered here can be replaced by
//! registering it again there.
use crate::tera_api::{same_but_helpers, tera_filters, tera_functions, tera_tests, Helper};
use vstd::prelude::*;

verus! {

/// The filters of the selected groups of `tera-contrib`, each with its
/// helper.
pub open spec fn contrib_filters_of(groups: ContribGroups) -> Map<Seq<char>, Helper> {
    Map::<Seq<char>, Helper>::empty().union_prefer_right(
        if groups.base64 {
            map!["b64_encode"@ => Helper::B64Encode, "b64_decode"@ => Helper::B64Decode]
        } else {
            Map::empty()
        },
    ).union_prefer_right(
        if groups.date {
            map!["date"@ => Helper::Date]
        } else {
            Map::empty()
        },
    ).union_prefer_right(
        if groups.filesize_format {
            map!["filesize_format"@ => Helper::FilesizeFormat]
        } else {
            Map::empty()
        },
    ).union_prefer_right(
        if groups.format {
            map!["format"@ => Helper::Format]
        } else {
            Map::empty()
        },
    ).union_prefer_right(
        if groups.json {
            map!["json_encode"@ => Helper::JsonEncode]
        } else {
            Map::empty()
        },
    ).union_prefer_right(
        if groups.rand {
            map!["shuffle"@ => Helper::Shuffle]
        } else {
            Map::empty()
        },
    ).union_prefer_right(
        if groups.regex {
            map![
                "striptags"@ => Helper::Striptags,
                "spaceless"@ => Helper::Spaceless,
                "regex_replace"@ => Helper::RegexReplace
            ]
        } else {
            Map::empty()
        },
    ).union_prefer_right(
        if groups.slug {
            map!["slug"@ => Helper::Slug]
        } else {
            Map::empty()
        },
    ).union_prefer_right(
        if groups.urlencode {
            map!["urlencode"@ => Helper::Urlencode, "urlencode_strict"@ => Helper::UrlencodeStrict]
        } else {
            Map::empty()
        },
    )
}

/// The tests of the selected groups of `tera-contrib`, each with its helper.
pub open spec fn contrib_tests_of(groups: ContribGroups) -> Map<Seq<char>, Helper> {
    Map::<Seq<char>, Helper>::empty().union_prefer_right(
        if groups.date {
            map!["before"@ => Helper::IsBefore, "after"@ => Helper::IsAfter]
        } else {
            Map::empty()
        },
    ).union_prefer_right(
        if groups.regex {
            map!["matching"@ => Helper::Matching]
        } else {
            Map::empty()
        },
    )
}

/// The functions of the selected groups of `tera-contrib`, each with its
/// helper.
pub open spec fn contrib_functions_of(groups: ContribGroups) -> Map<Seq<char>, Helper> {
    Map::<Seq<char>, Helper>::empty().union_prefer_right(
        if groups.date {
            map!["now"@ => Helper::Now]
        } else {
            Map::empty()
        },
    ).union_prefer_right(
        if groups.rand {
            map!["get_random"@ => Helper::GetRandom]
        } else {
            Map::empty()
        },
    )
}

/// Every group.
pub open spec fn all_groups() -> ContribGroups {
    ContribGroups {
        base64: true,
        date: true,
        filesize_format: true,
        format: true,
        json: true,
        rand: true,
        regex: true,
        slug: true,
        urlencode: true,
    }
}

/// The filters registered from `tera-contrib`, each with its helper.
pub open spec fn contrib_filters() -> Map<Seq<char>, Helper> {
    contrib_filters_of(all_groups())
}

/// The tests registered from `tera-contrib`, each with its helper.
pub open spec fn contrib_tests() -> Map<Seq<char>, Helper> {
    contrib_tests_of(all_groups())
}

/// The functions registered from `tera-contrib`, each with its helper.
pub open spec fn contrib_functions() -> Map<Seq<char>, Helper> {
    contrib_functions_of(all_groups())
}

/// The lengths and a few characters of the helper names, enough to tell
/// any two of them apart.
pub(crate) proof fn helper_names_differ()
    ensures
        "b64_encode"@.len() == 10,
        "b64_encode"@[0] == 'b',
        "b64_encode"@[1] == '6',
        "b64_encode"@[4] == 'e',
        "b64_decode"@.len() == 10,
        "b64_decode"@[0] == 'b',
        "b64_decode"@[1] == '6',
        "b64_decode"@[4] == 'd',
        "date"@.len() == 4,
        "date"@[0] == 'd',
        "date"@[1] == 'a',
        "filesize_format"@.len() == 15,
        "filesize_format"@[0] == 'f',
        "filesize_format"@[1] == 'i',
        "filesize_format"@[4] == 's',
        "format"@.len() == 6,
        "format"@[0] == 'f',
        "format"@[1] == 'o',
        "format"@[4] == 'a',
        "json_encode"@.len() == 11,
        "json_encode"@[0] == 'j',
        "json_encode"@[1] == 's',
        "json_encode"@[4] == '_',
        "shuffle"@.len() == 7,
        "shuffle"@[0] == 's',
        "shuffle"@[1] == 'h',
        "shuffle"@[4] == 'f',
        "striptags"@.len() == 9,
        "striptags"@[0] == 's',
        "striptags"@[1] == 't',
        "striptags"@[4] == 'p',
        "spaceless"@.len() == 9,
        "spaceless"@[0] == 's',
        "spaceless"@[1] == 'p',
        "spaceless"@[4] == 'e',
        "regex_replace"@.len() == 13,
        "regex_replace"@[0] == 'r',
        "regex_replace"@[1] == 'e',
        "regex_replace"@[4] == 'x',
        "slug"@.len() == 4,
        "slug"@[0] == 's',
        "slug"@[1] == 'l',
        "urlencode"@.len() == 9,
        "urlencode"@[0] == 'u',
        "urlencode"@[1] == 'r',
        "urlencode"@[4] == 'n',
        "urlencode_strict"@.len() == 16,
        "urlencode_strict"@[0] == 'u',
        "urlencode_strict"@[1] == 'r',
        "urlencode_strict"@[4] == 'n',
        "before"@.len() == 6,
        "before"@[0] == 'b',
        "before"@[1] == 'e',
        "before"@[4] == 'r',
        "after"@.len() == 5,
        "after"@[0] == 'a',
        "after"@[1] == 'f',
        "after"@[4] == 'r',
        "matching"@.len() == 8,
        "matching"@[0] == 'm',
        "matching"@[1] == 'a',
        "matching"@[4] == 'h',
        "now"@.len() == 3,
        "now"@[0] == 'n',
        "now"@[1] == 'o',
        "get_random"@.len() == 10,
        "get_random"@[0] == 'g',
        "get_random"@[1] == 'e',
        "get_random"@[4] == 'r',
{
    reveal_strlit("b64_encode");
    reveal_strlit("b64_decode");
    reveal_strlit("date");
    reveal_strlit("filesize_format");
    reveal_strlit("format");
    reveal_strlit("json_encode");
    reveal_strlit("shuffle");
    reveal_strlit("striptags");
    reveal_strlit("spaceless");
    reveal_strlit("regex_replace");
    reveal_strlit("slug");
    reveal_strlit("urlencode");
    reveal_strlit("urlencode_strict");
    reveal_strlit("before");
    reveal_strlit("after");
    reveal_strlit("matching");
    reveal_strlit("now");
    reveal_strlit("get_random");
}

/// Each group brings its own helpers, whatever the other groups are: a name
/// of a group is registered, bound to its helper, exactly when that group is
/// selected, and no name outside the groups is ever registered.
pub proof fn each_group_brings_its_helpers(groups: ContribGroups)
    ensures
        contrib_filters_of(groups).contains_key("b64_encode"@) == groups.base64,
        contrib_filters_of(groups).contains_key("b64_decode"@) == groups.base64,
        contrib_filters_of(groups).contains_key("date"@) == groups.date,
        contrib_filters_of(groups).contains_key("filesize_format"@) == groups.filesize_format,
        contrib_filters_of(groups).contains_key("format"@) == groups.format,
        contrib_filters_of(groups).contains_key("json_encode"@) == groups.json,
        contrib_filters_of(groups).contains_key("shuffle"@) == groups.rand,
        contrib_filters_of(groups).contains_key("striptags"@) == groups.regex,
        contrib_filters_of(groups).contains_key("spaceless"@) == groups.regex,
        contrib_filters_of(groups).contains_key("regex_replace"@) == groups.regex,
        contrib_filters_of(groups).contains_key("slug"@) == groups.slug,
        contrib_filters_of(groups).contains_key("urlencode"@) == groups.urlencode,
        contrib_filters_of(groups).contains_key("urlencode_strict"@) == groups.urlencode,
        contrib_tests_of(groups).contains_key("before"@) == groups.date,
        contrib_tests_of(groups).contains_key("after"@) == groups.date,
        contrib_tests_of(groups).contains_key("matching"@) == groups.regex,
        contrib_functions_of(groups).contains_key("now"@) == groups.date,
        contrib_functions_of(groups).contains_key("get_random"@) == groups.rand,
        groups.base64 ==> contrib_filters_of(groups)["b64_encode"@] == Helper::B64Encode,
        groups.base64 ==> contrib_filters_of(groups)["b64_decode"@] == Helper::B64Decode,
        groups.date ==> contrib_filters_of(groups)["date"@] == Helper::Date,
        groups.filesize_format ==> contrib_filters_of(groups)["filesize_format"@]
            == Helper::FilesizeFormat,
        groups.format ==> contrib_filters_of(groups)["format"@] == Helper::Format,
        groups.json ==> contrib_filters_of(groups)["json_encode"@] == Helper::JsonEncode,
        groups.rand ==> contrib_filters_of(groups)["shuffle"@] == Helper::Shuffle,
        groups.regex ==> contrib_filters_of(groups)["striptags"@] == Helper::Striptags,
        groups.regex ==> contrib_filters_of(groups)["spaceless"@] == Helper::Spaceless,
        groups.regex ==> contrib_filters_of(groups)["regex_replace"@] == Helper::RegexReplace,
        groups.slug ==> contrib_filters_of(groups)["slug"@] == Helper::Slug,
        groups.urlencode ==> contrib_filters_of(groups)["urlencode"@] == Helper::Urlencode,
        groups.urlencode ==> contrib_filters_of(groups)["urlencode_strict"@]
            == Helper::UrlencodeStrict,
        groups.date ==> contrib_tests_of(groups)["before"@] == Helper::IsBefore,
        groups.date ==> contrib_tests_of(groups)["after"@] == Helper::IsAfter,
        groups.regex ==> contrib_tests_of(groups)["matching"@] == Helper::Matching,
        groups.date ==> contrib_functions_of(groups)["now"@] == Helper::Now,
        groups.rand ==> contrib_functions_of(groups)["get_random"@] == Helper::GetRandom,
        contrib_filters_of(groups).dom().subset_of(
            set![
                "b64_encode"@, "b64_decode"@, "date"@, "filesize_format"@, "format"@,
                "json_encode"@, "shuffle"@, "striptags"@, "spaceless"@, "regex_replace"@,
                "slug"@, "urlencode"@, "urlencode_strict"@
            ],
        ),
        contrib_tests_of(groups).dom().subset_of(set!["before"@, "after"@, "matching"@]),
        contrib_functions_of(groups).dom().subset_of(set!["now"@, "get_random"@]),
{
    helper_names_differ();
}

/// Registering every group registers exactly these helpers, each under the
/// name its documentation uses.
pub proof fn every_group_helpers()
    ensures
        contrib_filters() == map![
            "b64_encode"@ => Helper::B64Encode,
            "b64_decode"@ => Helper::B64Decode,
            "date"@ => Helper::Date,
            "filesize_format"@ => Helper::FilesizeFormat,
            "format"@ => Helper::Format,
            "json_encode"@ => Helper::JsonEncode,
            "shuffle"@ => Helper::Shuffle,
            "striptags"@ => Helper::Striptags,
            "spaceless"@ => Helper::Spaceless,
            "regex_replace"@ => Helper::RegexReplace,
            "slug"@ => Helper::Slug,
            "urlencode"@ => Helper::Urlencode,
            "urlencode_strict"@ => Helper::UrlencodeStrict
        ],
        contrib_tests() == map![
            "before"@ => Helper::IsBefore,
            "after"@ => Helper::IsAfter,
            "matching"@ => Helper::Matching
        ],
        contrib_functions() == map!["now"@ => Helper::Now, "get_random"@ => Helper::GetRandom],
{
    helper_names_differ();
    assert(contrib_filters() =~= map![
        "b64_encode"@ => Helper::B64Encode,
        "b64_decode"@ => Helper::B64Decode,
        "date"@ => Helper::Date,
        "filesize_format"@ => Helper::FilesizeFormat,
        "format"@ => Helper::Format,
        "json_encode"@ => Helper::JsonEncode,
        "shuffle"@ => Helper::Shuffle,
        "striptags"@ => Helper::Striptags,
        "spaceless"@ => Helper::Spaceless,
        "regex_replace"@ => Helper::RegexReplace,
        "slug"@ => Helper::Slug,
        "urlencode"@ => Helper::Urlencode,
        "urlencode_strict"@ => Helper::UrlencodeStrict
    ]);
    assert(contrib_tests() =~= map![
        "before"@ => Helper::IsBefore,
        "after"@ => Helper::IsAfter,
        "matching"@ => Helper::Matching
    ]);
    assert(contrib_functions() =~= map!["now"@ => Helper::Now, "get_random"@ => Helper::GetRandom]);
}

/// What registering a filter named `name` does to `tera`, as
/// `tera::Tera::register_filter` does it: `name` is bound to `helper` among
/// the filters (replacing any filter of that name) and nothing else changes.
pub open spec fn adds_filter(old: tera::Tera, new: tera::Tera, name: Seq<char>, helper: Helper) -> bool {
    &&& same_but_helpers(old, new)
    &&& tera_filters(new) == tera_filters(old).insert(name, helper)
    &&& tera_tests(new) == tera_tests(old)
    &&& tera_functions(new) == tera_functions(old)
}

/// What registering a test named `name` does, as `tera::Tera::register_test`
/// does it.
pub open spec fn adds_test(old: tera::Tera, new: tera::Tera, name: Seq<char>, helper: Helper) -> bool {
    &&& same_but_helpers(old, new)
    &&& tera_filters(new) == tera_filters(old)
    &&& tera_tests(new) == tera_tests(old).insert(name, helper)
    &&& tera_functions(new) == tera_functions(old)
}

/// What registering a function named `name` does, as
/// `tera::Tera::register_function` does it.
pub open spec fn adds_function(old: tera::Tera, new: tera::Tera, name: Seq<char>, helper: Helper) -> bool {
    &&& same_but_helpers(old, new)
    &&& tera_filters(new) == tera_filters(old)
    &&& tera_tests(new) == tera_tests(old)
    &&& tera_functions(new) == tera_functions(old).insert(name, helper)
}

/// `tera::Tera::register_filter` with `tera_contrib::base64::b64_encode`.
#[verifier::external_body]
fn register_b64_encode(tera: &mut tera::Tera, name: &str)
    ensures
        adds_filter(*old(tera), *final(tera), name@, Helper::B64Encode),
{
    tera.register_filter(name.to_string(), tera_contrib::base64::b64_encode)
}

/// `tera::Tera::register_filter` with `tera_contrib::base64::b64_decode`.
#[verifier::external_body]
fn register_b64_decode(tera: &mut tera::Tera, name: &str)
    ensures
        adds_filter(*old(tera), *final(tera), name@, Helper::B64Decode),
{
    tera.register_filter(name.to_string(), tera_contrib::base64::b64_decode)
}

/// `tera::Tera::register_function` with `tera_contrib::dates::now`.
#[verifier::external_body]
fn register_now(tera: &mut tera::Tera, name: &str)
    ensures
        adds_function(*old(tera), *final(tera), name@, Helper::Now),
{
    tera.register_function(name.to_string(), tera_contrib::dates::now)
}

/// `tera::Tera::register_filter` with `tera_contrib::dates::date`.
#[verifier::external_body]
fn register_date(tera: &mut tera::Tera, name: &str)
    ensures
        adds_filter(*old(tera), *final(tera), name@, Helper::Date),
{
    tera.register_filter(name.to_string(), tera_contrib::dates::date)
}

/// `tera::Tera::register_test` with `tera_contrib::dates::is_before`.
#[verifier::external_body]
fn register_is_before(tera: &mut tera::Tera, name: &str)
    ensures
        adds_test(*old(tera), *final(tera), name@, Helper::IsBefore),
{
    tera.register_test(name.to_string(), tera_contrib::dates::is_before)
}

/// `tera::Tera::register_test` with `tera_contrib::dates::is_after`.
#[verifier::external_body]
fn register_is_after(tera: &mut tera::Tera, name: &str)
    ensures
        adds_test(*old(tera), *final(tera), name@, Helper::IsAfter),
{
    tera.register_test(name.to_string(), tera_contrib::dates::is_after)
}

/// `tera::Tera::register_filter` with
/// `tera_contrib::filesize_format::filesize_format`.
#[verifier::external_body]
fn register_filesize_format(tera: &mut tera::Tera, name: &str)
    ensures
        adds_filter(*old(tera), *final(tera), name@, Helper::FilesizeFormat),
{
    tera.register_filter(name.to_string(), tera_contrib::filesize_format::filesize_format)
}

/// `tera::Tera::register_filter` with `tera_contrib::format::format`.
#[verifier::external_body]
fn register_format(tera: &mut tera::Tera, name: &str)
    ensures
        adds_filter(*old(tera), *final(tera), name@, Helper::Format),
{
    tera.register_filter(name.to_string(), tera_contrib::format::format)
}

/// `tera::Tera::register_filter` with `tera_contrib::json::json_encode`.
#[verifier::external_body]
fn register_json_encode(tera: &mut tera::Tera, name: &str)
    ensures
        adds_filter(*old(tera), *final(tera), name@, Helper::JsonEncode),
{
    tera.register_filter(name.to_string(), tera_contrib::json::json_encode)
}

/// `tera::Tera::register_function` with `tera_contrib::rand::get_random`.
#[verifier::external_body]
fn register_get_random(tera: &mut tera::Tera, name: &str)
    ensures
        adds_function(*old(tera), *final(tera), name@, Helper::GetRandom),
{
    tera.register_function(name.to_string(), tera_contrib::rand::get_random)
}

/// `tera::Tera::register_filter` with `tera_contrib::rand::shuffle`.
#[verifier::external_body]
fn register_shuffle(tera: &mut tera::Tera, name: &str)
    ensures
        adds_filter(*old(tera), *final(tera), name@, Helper::Shuffle),
{
    tera.register_filter(name.to_string(), tera_contrib::rand::shuffle)
}

/// `tera::Tera::register_filter` with `tera_contrib::regex::striptags`.
#[verifier::external_body]
fn register_striptags(tera: &mut tera::Tera, name: &str)
    ensures
        adds_filter(*old(tera), *final(tera), name@, Helper::Striptags),
{
    tera.register_filter(name.to_string(), tera_contrib::regex::striptags)
}

/// `tera::Tera::register_filter` with `tera_contrib::regex::spaceless`.
#[verifier::external_body]
fn register_spaceless(tera: &mut tera::Tera, name: &str)
    ensures
        adds_filter(*old(tera), *final(tera), name@, Helper::Spaceless),
{
    tera.register_filter(name.to_string(), tera_contrib::regex::spaceless)
}

/// `tera::Tera::register_filter` with a default
/// `tera_contrib::regex::RegexReplace`.
#[verifier::external_body]
fn register_regex_replace(tera: &mut tera::Tera, name: &str)
    ensures
        adds_filter(*old(tera), *final(tera), name@, Helper::RegexReplace),
{
    tera.register_filter(name.to_string(), tera_contrib::regex::RegexReplace::default())
}

/// `tera::Tera::register_test` with a default `tera_contrib::regex::Matching`.
#[verifier::external_body]
fn register_matching(tera: &mut tera::Tera, name: &str)
    ensures
        adds_test(*old(tera), *final(tera), name@, Helper::Matching),
{
    tera.register_test(name.to_string(), tera_contrib::regex::Matching::default())
}

/// `tera::Tera::register_filter` with `tera_contrib::slug::slug`.
#[verifier::external_body]
fn register_slug(tera: &mut tera::Tera, name: &str)
    ensures
        adds_filter(*old(tera), *final(tera), name@, Helper::Slug),
{
    tera.register_filter(name.to_string(), tera_contrib::slug::slug)
}

/// `tera::Tera::register_filter` with `tera_contrib::urlencode::urlencode`.
#[verifier::external_body]
fn register_urlencode(tera: &mut tera::Tera, name: &str)
    ensures
        adds_filter(*old(tera), *final(tera), name@, Helper::Urlencode),
{
    tera.register_filter(name.to_string(), tera_contrib::urlencode::urlencode)
}

/// `tera::Tera::register_filter` with
/// `tera_contrib::urlencode::urlencode_strict`.
#[verifier::external_body]
fn register_urlencode_strict(tera: &mut tera::Tera, name: &str)
    ensures
        adds_filter(*old(tera), *final(tera), name@, Helper::UrlencodeStrict),
{
    tera.register_filter(name.to_string(), tera_contrib::urlencode::urlencode_strict)
}

/// Which groups of `tera-contrib` helpers to register, one per `tera-contrib`
/// feature.
pub struct ContribGroups {
    /// `b64_encode` and `b64_decode`.
    pub base64: bool,
    /// `date`, `now`, `before` and `after`.
    pub date: bool,
    /// `filesize_format`.
    pub filesize_format: bool,
    /// `format`.
    pub format: bool,
    /// `json_encode`.
    pub json: bool,
    /// `get_random` and `shuffle`.
    pub rand: bool,
    /// `striptags`, `spaceless`, `regex_replace` and `matching`.
    pub regex: bool,
    /// `slug`.
    pub slug: bool,
    /// `urlencode` and `urlencode_strict`.
    pub urlencode: bool,
}

impl ContribGroups {
    /// Every group.
    pub fn all() -> (groups: ContribGroups)
        ensures
            groups == all_groups(),
    {
        ContribGroups {
            base64: true,
            date: true,
            filesize_format: true,
            format: true,
            json: true,
            rand: true,
            regex: true,
            slug: true,
            urlencode: true,
        }
    }
}

/// The groups of `groups` among the first `k`, in the order of the fields.
pub open spec fn first_groups(groups: ContribGroups, k: int) -> ContribGroups {
    ContribGroups {
        base64: 0 < k && groups.base64,
        date: 1 < k && groups.date,
        filesize_format: 2 < k && groups.filesize_format,
        format: 3 < k && groups.format,
        json: 4 < k && groups.json,
        rand: 5 < k && groups.rand,
        regex: 6 < k && groups.regex,
        slug: 7 < k && groups.slug,
        urlencode: 8 < k && groups.urlencode,
    }
}

/// The filters, tests and functions registered with `t`.
spec fn helpers(t: tera::Tera) -> (Map<Seq<char>, Helper>, Map<Seq<char>, Helper>, Map<Seq<char>, Helper>) {
    (tera_filters(t), tera_tests(t), tera_functions(t))
}

/// The filters, tests and functions of `start` with those of the selected
/// groups among the first `k` added.
spec fn helpers_after(start: tera::Tera, groups: ContribGroups, k: int) -> (
    Map<Seq<char>, Helper>,
    Map<Seq<char>, Helper>,
    Map<Seq<char>, Helper>,
) {
    let g = first_groups(groups, k);
    (
        tera_filters(start).union_prefer_right(contrib_filters_of(g)),
        tera_tests(start).union_prefer_right(contrib_tests_of(g)),
        tera_functions(start).union_prefer_right(contrib_functions_of(g)),
    )
}

/// Registers the `tera-contrib` filters, tests and functions of the selected
/// groups with `tera`, each under the name its documentation uses. Templates,
/// glob, autoescaping and fallback prefixes are left as they were.
pub fn register_groups(tera: &mut tera::Tera, groups: &ContribGroups)
    ensures
        same_but_helpers(*old(tera), *final(tera)),
        tera_filters(*final(tera)) == tera_filters(*old(tera)).union_prefer_right(
            contrib_filters_of(*groups),
        ),
        tera_tests(*final(tera)) == tera_tests(*old(tera)).union_prefer_right(
            contrib_tests_of(*groups),
        ),
        tera_functions(*final(tera)) == tera_functions(*old(tera)).union_prefer_right(
            contrib_functions_of(*groups),
        ),
{
    let ghost start = *tera;
    assert(helpers(*tera) =~~= helpers_after(start, *groups, 0));
    if groups.base64 {
        register_b64_encode(tera, "b64_encode");
        register_b64_decode(tera, "b64_decode");
    }
    assert(helpers(*tera) =~~= helpers_after(start, *groups, 1));
    if groups.date {
        register_now(tera, "now");
        register_date(tera, "date");
        register_is_before(tera, "before");
        register_is_after(tera, "after");
    }
    assert(helpers(*tera) =~~= helpers_after(start, *groups, 2));
    if groups.filesize_format {
        register_filesize_format(tera, "filesize_format");
    }
    assert(helpers(*tera) =~~= helpers_after(start, *groups, 3));
    if groups.format {
        register_format(tera, "format");
    }
    assert(helpers(*tera) =~~= helpers_after(start, *groups, 4));
    if groups.json {
        register_json_encode(tera, "json_encode");
    }
    assert(helpers(*tera) =~~= helpers_after(start, *groups, 5));
    if groups.rand {
        register_get_random(tera, "get_random");
        register_shuffle(tera, "shuffle");
    }
    assert(helpers(*tera) =~~= helpers_after(start, *groups, 6));
    if groups.regex {
        register_striptags(tera, "striptags");
        register_spaceless(tera, "spaceless");
        register_regex_replace(tera, "regex_replace");
        register_matching(tera, "matching");
    }
    assert(helpers(*tera) =~~= helpers_after(start, *groups, 7));
    if groups.slug {
        register_slug(tera, "slug");
    }
    assert(helpers(*tera) =~~= helpers_after(start, *groups, 8));
    if groups.urlencode {
        register_urlencode(tera, "urlencode");
        register_urlencode_strict(tera, "urlencode_strict");
    }
    assert(helpers(*tera) =~~= helpers_after(start, *groups, 9));
    assert(first_groups(*groups, 9) == *groups);
}

/// Registers every filter, test and function of `tera-contrib` with `tera`,
/// each under the name its documentation uses. Templates, glob, autoescaping
/// and fallback prefixes are left as they were.
pub fn register(tera: &mut tera::Tera)
    ensures
        same_but_helpers(*old(tera), *final(tera)),
        tera_filters(*final(tera)) == tera_filters(*old(tera)).union_prefer_right(contrib_filters()),
        tera_tests(*final(tera)) == tera_tests(*old(tera)).union_prefer_right(contrib_tests()),
        tera_functions(*final(tera)) == tera_functions(*old(tera)).union_prefer_right(
            contrib_functions(),
        ),
{
    let groups = ContribGroups::all();
    assert(groups == all_groups());
    register_groups(tera, &groups);
}

} // verus!
