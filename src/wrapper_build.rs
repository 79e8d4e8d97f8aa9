use vstd::prelude::*;

verus! {

broadcast use vstd::string::group_string_axioms;

/// `s` with every occurrence of `from`, taken from the left without overlap,
/// replaced by `to`.
pub open spec fn replaced_all(s: Seq<char>, from: Seq<char>, to: Seq<char>) -> Seq<char>
    decreases s.len(),
{
    if from.len() == 0 || s.len() < from.len() {
        s
    } else if s.take(from.len() as int) == from {
        to + replaced_all(s.skip(from.len() as int), from, to)
    } else {
        seq![s[0]] + replaced_all(s.skip(1), from, to)
    }
}

/// The lines of the cmake files that make them refuse to load outside
/// `find_package(CEF)`.
pub const FIND_PACKAGE_GUARD: &'static str = "if(NOT DEFINED _CEF_ROOT_EXPLICIT)\n  message(FATAL_ERROR \"Use find_package(CEF) to load this file.\")\nendif()";

/// Relies on String::push: `c` is appended at the end.
#[verifier::external_body]
fn push_char(s: &mut String, c: char)
    ensures
        final(s)@ == old(s)@.push(c),
{
    s.push(c);
}

fn chars_of(text: &str) -> (r: Vec<char>)
    ensures
        r@ == text@,
{
    let mut out: Vec<char> = Vec::new();
    for c in it: text.chars()
        invariant
            out@ == it.seq().take(it.index() as int),
    {
        out.push(c);
    }
    out
}

fn occurs_at(s: &Vec<char>, i: usize, pattern: &Vec<char>) -> (r: bool)
    requires
        i <= s@.len(),
    ensures
        r == (i + pattern@.len() <= s@.len() && s@.subrange(
            i as int,
            i + pattern@.len(),
        ) == pattern@),
{
    let n = s.len();
    if pattern.len() > n - i {
        return false;
    }
    let mut j: usize = 0;
    while j < pattern.len()
        invariant
            n == s@.len(),
            i + pattern@.len() <= s@.len(),
            j <= pattern@.len(),
            forall|k: int| 0 <= k < j ==> s@[i + k] == pattern@[k],
        decreases pattern@.len() - j,
    {
        if s[i + j] != pattern[j] {
            assert(s@.subrange(i as int, i + pattern@.len())[j as int] != pattern@[j as int]);
            return false;
        }
        j = j + 1;
    }
    assert(s@.subrange(i as int, i + pattern@.len()) =~= pattern@);
    true
}

/// `text` with every occurrence of `from` replaced by `to`, as the standard
/// library's `str::replace` does for a non-empty pattern; an empty pattern
/// leaves the text as it is.
pub fn replace_all(text: &str, from: &str, to: &str) -> (r: String)
    ensures
        r@ == replaced_all(text@, from@, to@),
{
    let s = chars_of(text);
    let pattern = chars_of(from);
    if pattern.len() == 0 {
        return String::from_str(text);
    }
    let mut out = String::new();
    let mut i: usize = 0;
    assert(s@.skip(0) =~= s@);
    while i < s.len()
        invariant
            s@ == text@,
            pattern@ == from@,
            pattern@.len() > 0,
            i <= s@.len(),
            replaced_all(s@, pattern@, to@) == out@ + replaced_all(s@.skip(i as int), pattern@, to@),
        decreases s@.len() - i,
    {
        let ghost rest = s@.skip(i as int);
        if occurs_at(&s, i, &pattern) {
            assert(rest.take(pattern@.len() as int) =~= s@.subrange(i as int, i + pattern@.len()));
            assert(rest.skip(pattern@.len() as int) =~= s@.skip(i + pattern@.len()));
            out.append(to);
            i = i + pattern.len();
        } else {
            proof {
                if rest.len() >= pattern@.len() {
                    assert(rest.take(pattern@.len() as int) =~= s@.subrange(
                        i as int,
                        i + pattern@.len(),
                    ));
                } else {
                    assert(rest =~= seq![rest[0]] + rest.skip(1));
                }
                assert(rest.skip(1) =~= s@.skip(i + 1));
            }
            push_char(&mut out, s[i]);
            i = i + 1;
        }
    }
    assert(s@.skip(i as int) =~= seq![]);
    out
}

/// The text of a cmake file of the distribution without its `find_package`
/// guard. With `crlf`, line ends are read and written as `\r\n`.
pub fn strip_find_package_guard(text: &str, crlf: bool) -> (r: String)
    ensures
        crlf ==> r@ == replaced_all(
            replaced_all(replaced_all(text@, "\r\n"@, "\n"@), FIND_PACKAGE_GUARD@, ""@),
            "\n"@,
            "\r\n"@,
        ),
        !crlf ==> r@ == replaced_all(text@, FIND_PACKAGE_GUARD@, ""@),
{
    proof {
        reveal_strlit("\r\n");
        reveal_strlit("\n");
    }
    if crlf {
        let unix = replace_all(text, "\r\n", "\n");
        let stripped = replace_all(unix.as_str(), FIND_PACKAGE_GUARD, "");
        replace_all(stripped.as_str(), "\n", "\r\n")
    } else {
        replace_all(text, FIND_PACKAGE_GUARD, "")
    }
}

pub const WRAPPER_HEAD: &'static str = "cmake_minimum_required(VERSION 3.0)\nproject(dll_wrapper)\nset(CMAKE_MODULE_PATH ${CMAKE_MODULE_PATH} \"";

pub const WRAPPER_INCLUDES: &'static str = "\")\ninclude(\"cef_macros\")\ninclude(\"cef_variables\")\ninclude_directories(\"";

pub const WRAPPER_SOURCES: &'static str = "\")\nadd_subdirectory(\"";

pub const WRAPPER_TAIL: &'static str = "\")\ninstall(TARGETS libcef_dll_wrapper DESTINATION .)\n";

/// A path as cmake reads it: with `/` for every `\\`.
pub open spec fn cmake_path(path: Seq<char>) -> Seq<char> {
    replaced_all(path, "\\"@, "/"@)
}

/// The project file that builds the wrapper library from the unpacked
/// sources in `src_dir`, with the build macros of `macros_dir` and the
/// headers under `project_dir`.
pub open spec fn wrapper_project(
    macros_dir: Seq<char>,
    project_dir: Seq<char>,
    src_dir: Seq<char>,
) -> Seq<char> {
    WRAPPER_HEAD@ + cmake_path(macros_dir) + WRAPPER_INCLUDES@ + cmake_path(project_dir)
        + WRAPPER_SOURCES@ + cmake_path(src_dir) + WRAPPER_TAIL@
}

pub fn wrapper_cmake_lists(macros_dir: &str, project_dir: &str, src_dir: &str) -> (r: String)
    ensures
        r@ == wrapper_project(macros_dir@, project_dir@, src_dir@),
{
    let mut text = String::from_str(WRAPPER_HEAD);
    let macros = replace_all(macros_dir, "\\", "/");
    text.append(macros.as_str());
    text.append(WRAPPER_INCLUDES);
    let project = replace_all(project_dir, "\\", "/");
    text.append(project.as_str());
    text.append(WRAPPER_SOURCES);
    let sources = replace_all(src_dir, "\\", "/");
    text.append(sources.as_str());
    text.append(WRAPPER_TAIL);
    text
}

} // verus!
