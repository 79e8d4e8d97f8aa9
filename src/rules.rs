use vstd::prelude::*;

use crate::platform::{OptLevel, Platform};

verus! {

/// The directories an archive is unpacked into; each present one receives its
/// own share of the archive.
#[derive(Debug, Clone, PartialEq, Eq)]
pub struct DestinationSet {
    /// Libraries, executables and runtime resources.
    pub lib_dir: Option<String>,
    /// C headers.
    pub header_dir: Option<String>,
    /// Sources of the C++ wrapper library.
    pub libcef_dll_src_dir: Option<String>,
    /// Build macros for the wrapper library.
    pub cmake_macros_dir: Option<String>,
}

/// An uncompiled rewrite rule: a pattern over archive-relative entry paths and
/// the destination that a matching entry is written to, in which `${1}` stands
/// for the first captured group.
#[derive(Debug, Clone, PartialEq, Eq)]
pub struct RuleText {
    pub pattern: String,
    pub template: String,
}

impl View for RuleText {
    type V = (Seq<char>, Seq<char>);

    open spec fn view(&self) -> (Seq<char>, Seq<char>) {
        (self.pattern@, self.template@)
    }
}

pub open spec fn texts_view(rules: Seq<RuleText>) -> Seq<(Seq<char>, Seq<char>)> {
    rules.map_values(|r: RuleText| r@)
}

/// A destination template inside directory `dir`.
pub open spec fn within(dir: Seq<char>, tail: Seq<char>) -> Seq<char> {
    dir + "/"@ + tail
}

/// A pattern for entries under the directory of the build `opt`.
pub open spec fn build_pattern(opt: OptLevel, tail: Seq<char>) -> Seq<char> {
    "^[^/]+/"@ + opt.dir() + tail
}

/// The rules that place binaries and runtime resources into `lib`.
pub open spec fn binary_rules(platform: Platform, opt: OptLevel, lib: Seq<char>) -> Seq<
    (Seq<char>, Seq<char>),
> {
    match platform {
        Platform::Windows => seq![
            (build_pattern(opt, "/([^/]+\\.(lib|dll|bin))$"@), within(lib, "${1}"@)),
            (build_pattern(opt, "/(swiftshader/[^/]+\\.dll)$"@), within(lib, "${1}"@)),
            ("^[^/]+/Resources/icudtl\\.dat$"@, within(lib, "icudtl.dat"@)),
            ("^[^/]+/Resources/((locales/)?[^/]+\\.pak)$"@, within(lib, "${1}"@)),
        ],
        Platform::Linux => seq![
            (build_pattern(opt, "/([^/]+\\.(so|bin))$"@), within(lib, "${1}"@)),
            (build_pattern(opt, "/(swiftshader/[^/]+\\.so)$"@), within(lib, "${1}"@)),
            ("^[^/]+/Resources/icudtl\\.dat$"@, within(lib, "icudtl.dat"@)),
            ("^[^/]+/Resources/((locales/)?[^/]+\\.pak)$"@, within(lib, "${1}"@)),
        ],
        Platform::MacOS => seq![
            (
                build_pattern(opt, "/(Chromium Embedded Framework\\.framework/.+)$"@),
                within(lib, "${1}"@),
            ),
        ],
    }
}

/// The rule a destination directory contributes when it is present.
pub open spec fn optional_rule(dir: Option<String>, pattern: Seq<char>) -> Seq<
    (Seq<char>, Seq<char>),
> {
    match dir {
        Some(d) => seq![(pattern, within(d@, "${1}"@))],
        None => seq![],
    }
}

/// The ordered rule table: binaries first, then headers, wrapper sources and
/// build macros.
pub open spec fn rule_table(platform: Platform, opt: OptLevel, dests: DestinationSet) -> Seq<
    (Seq<char>, Seq<char>),
> {
    (match dests.lib_dir {
        Some(lib) => binary_rules(platform, opt, lib@),
        None => seq![],
    }) + optional_rule(dests.header_dir, "^[^/]+/include/(.+\\.h)"@) + optional_rule(
        dests.libcef_dll_src_dir,
        "^[^/]+/libcef_dll/(.+)"@,
    ) + optional_rule(dests.cmake_macros_dir, "^[^/]+/cmake/(.+)"@)
}

fn within_dir(dir: &str, tail: &str) -> (r: String)
    ensures
        r@ == within(dir@, tail@),
{
    let mut s = String::from_str(dir);
    s.append("/");
    s.append(tail);
    s
}

fn build_dir_pattern(opt: OptLevel, tail: &str) -> (r: String)
    ensures
        r@ == build_pattern(opt, tail@),
{
    let mut s = String::from_str("^[^/]+/");
    s.append(opt.dir_name());
    s.append(tail);
    s
}

fn push_rule(rules: &mut Vec<RuleText>, pattern: String, template: String)
    ensures
        texts_view(final(rules)@) == texts_view(old(rules)@).push((pattern@, template@)),
{
    let ghost added = (pattern@, template@);
    rules.push(RuleText { pattern, template });
    assert(texts_view(rules@) =~= texts_view(old(rules)@).push(added));
}

fn push_binary_rules(rules: &mut Vec<RuleText>, platform: Platform, opt: OptLevel, lib: &str)
    ensures
        texts_view(final(rules)@) == texts_view(old(rules)@) + binary_rules(platform, opt, lib@),
{
    let ghost start = texts_view(rules@);
    match platform {
        Platform::MacOS => {
            push_rule(
                rules,
                build_dir_pattern(opt, "/(Chromium Embedded Framework\\.framework/.+)$"),
                within_dir(lib, "${1}"),
            );
        },
        _ => {
            let (libraries, swiftshader) = if platform == Platform::Windows {
                ("/([^/]+\\.(lib|dll|bin))$", "/(swiftshader/[^/]+\\.dll)$")
            } else {
                ("/([^/]+\\.(so|bin))$", "/(swiftshader/[^/]+\\.so)$")
            };
            push_rule(rules, build_dir_pattern(opt, libraries), within_dir(lib, "${1}"));
            push_rule(rules, build_dir_pattern(opt, swiftshader), within_dir(lib, "${1}"));
            push_rule(
                rules,
                String::from_str("^[^/]+/Resources/icudtl\\.dat$"),
                within_dir(lib, "icudtl.dat"),
            );
            push_rule(
                rules,
                String::from_str("^[^/]+/Resources/((locales/)?[^/]+\\.pak)$"),
                within_dir(lib, "${1}"),
            );
        },
    }
    assert(texts_view(rules@) =~= start + binary_rules(platform, opt, lib@));
}

fn push_optional_rule(rules: &mut Vec<RuleText>, dir: &Option<String>, pattern: &str)
    ensures
        texts_view(final(rules)@) == texts_view(old(rules)@) + optional_rule(*dir, pattern@),
{
    let ghost start = texts_view(rules@);
    match dir {
        Some(d) => {
            push_rule(rules, String::from_str(pattern), within_dir(d.as_str(), "${1}"));
        },
        None => {},
    }
    assert(texts_view(rules@) =~= start + optional_rule(*dir, pattern@));
}

/// Builds the ordered rewrite rules for an archive of `platform` and `opt`
/// unpacked into `dests`.
pub fn rewrite_rules(platform: Platform, opt: OptLevel, dests: &DestinationSet) -> (r: Vec<
    RuleText,
>)
    ensures
        texts_view(r@) == rule_table(platform, opt, *dests),
{
    let mut rules: Vec<RuleText> = Vec::new();
    assert(texts_view(rules@) =~= seq![]);
    match &dests.lib_dir {
        Some(lib) => push_binary_rules(&mut rules, platform, opt, lib.as_str()),
        None => {},
    }
    push_optional_rule(&mut rules, &dests.header_dir, "^[^/]+/include/(.+\\.h)");
    push_optional_rule(&mut rules, &dests.libcef_dll_src_dir, "^[^/]+/libcef_dll/(.+)");
    push_optional_rule(&mut rules, &dests.cmake_macros_dir, "^[^/]+/cmake/(.+)");
    assert(texts_view(rules@) =~= rule_table(platform, opt, *dests));
    rules
}

pub open spec fn text_of(o: Option<String>) -> Option<Seq<char>> {
    match o {
        Some(s) => Some(s@),
        None => None,
    }
}

/// The destinations of a build: the library directory always; on macOS also
/// the `include`, `libcef_dll` and `cmake` directories of the wrapper project,
/// whose library is built from the unpacked sources.
pub fn build_destinations(platform: Platform, lib_dir: &str, project_dir: &str) -> (r:
    DestinationSet)
    ensures
        text_of(r.lib_dir) == Some(lib_dir@),
        platform == Platform::MacOS ==> {
            &&& text_of(r.header_dir) == Some(within(project_dir@, "include"@))
            &&& text_of(r.libcef_dll_src_dir) == Some(within(project_dir@, "libcef_dll"@))
            &&& text_of(r.cmake_macros_dir) == Some(within(project_dir@, "cmake"@))
        },
        platform != Platform::MacOS ==> {
            &&& r.header_dir is None
            &&& r.libcef_dll_src_dir is None
            &&& r.cmake_macros_dir is None
        },
{
    match platform {
        Platform::MacOS => DestinationSet {
            lib_dir: Some(String::from_str(lib_dir)),
            header_dir: Some(within_dir(project_dir, "include")),
            libcef_dll_src_dir: Some(within_dir(project_dir, "libcef_dll")),
            cmake_macros_dir: Some(within_dir(project_dir, "cmake")),
        },
        _ => DestinationSet {
            lib_dir: Some(String::from_str(lib_dir)),
            header_dir: None,
            libcef_dll_src_dir: None,
            cmake_macros_dir: None,
        },
    }
}

} // verus!
