use vstd::prelude::*;

use crate::platform::Platform;

verus! {

/// The fingerprint of a provisioning: the version, the archive cache
/// directory, the library directory and, where one is used, the wrapper
/// project directory, joined by `;` in that order.
pub open spec fn sentinel(
    version: Seq<char>,
    archive_dir: Seq<char>,
    lib_dir: Seq<char>,
    project_dir: Option<Seq<char>>,
) -> Seq<char> {
    version + ";"@ + archive_dir + ";"@ + lib_dir + ";"@ + project_text(project_dir)
}

pub open spec fn project_text(project_dir: Option<Seq<char>>) -> Seq<char> {
    match project_dir {
        Some(p) => p,
        None => seq![],
    }
}

pub open spec fn has_separator(field: Seq<char>) -> bool {
    field.contains(';')
}

pub open spec fn str_text(o: Option<&str>) -> Option<Seq<char>> {
    match o {
        Some(s) => Some(s@),
        None => None,
    }
}

/// The sentinel text for the given version and directories.
pub fn sentinel_contents(
    version: &str,
    archive_dir: &str,
    lib_dir: &str,
    project_dir: Option<&str>,
) -> (r: String)
    ensures
        r@ == sentinel(version@, archive_dir@, lib_dir@, str_text(project_dir)),
{
    let mut s = String::from_str(version);
    s.append(";");
    s.append(archive_dir);
    s.append(";");
    s.append(lib_dir);
    s.append(";");
    match project_dir {
        Some(p) => s.append(p),
        None => {},
    }
    proof {
        assert(project_dir is None ==> s@ =~= sentinel(
            version@,
            archive_dir@,
            lib_dir@,
            str_text(project_dir),
        ));
    }
    s
}

/// The sentinel of a build: the wrapper project directory takes part on
/// macOS only, the one platform that uses it.
pub fn build_sentinel(
    version: &str,
    platform: Platform,
    archive_dir: &str,
    lib_dir: &str,
    project_dir: &str,
) -> (r: String)
    ensures
        r@ == sentinel(
            version@,
            archive_dir@,
            lib_dir@,
            if platform == Platform::MacOS {
                Some(project_dir@)
            } else {
                None
            },
        ),
{
    match platform {
        Platform::MacOS => sentinel_contents(version, archive_dir, lib_dir, Some(project_dir)),
        _ => sentinel_contents(version, archive_dir, lib_dir, None),
    }
}

/// Whether the archive has to be unpacked again: unless the sentinel last
/// committed is exactly the fresh one, it does.
pub fn should_provision(fresh: &str, committed: Option<&str>) -> (r: bool)
    ensures
        r == !(committed matches Some(c) && c@ == fresh@),
{
    match committed {
        Some(c) => String::from_str(c) != String::from_str(fresh),
        None => true,
    }
}

proof fn lemma_split_at_separator(a: Seq<char>, r1: Seq<char>, b: Seq<char>, r2: Seq<char>)
    requires
        !has_separator(a),
        !has_separator(b),
        a + ";"@ + r1 == b + ";"@ + r2,
    ensures
        a == b,
        r1 == r2,
{
    reveal_strlit(";");
    let x = a + ";"@ + r1;
    if a.len() < b.len() {
        assert(x[a.len() as int] == ';');
        assert(b[a.len() as int] == ';');
        assert(b.contains(';'));
    } else if b.len() < a.len() {
        assert(x[b.len() as int] == ';');
        assert(a[b.len() as int] == ';');
        assert(a.contains(';'));
    }
    assert(a =~= x.subrange(0, a.len() as int));
    assert(b =~= x.subrange(0, a.len() as int));
    assert(r1 =~= x.skip(a.len() as int + 1));
    assert(r2 =~= x.skip(a.len() as int + 1));
}

/// Two sentinels are equal exactly when every field is textually the same,
/// given that the version and the two leading directories hold no `;` (an
/// absent project directory reads as an empty one).
pub proof fn lemma_sentinel_equal_iff_fields_equal(
    version: Seq<char>,
    archive_dir: Seq<char>,
    lib_dir: Seq<char>,
    project_dir: Option<Seq<char>>,
    other_version: Seq<char>,
    other_archive_dir: Seq<char>,
    other_lib_dir: Seq<char>,
    other_project_dir: Option<Seq<char>>,
)
    requires
        !has_separator(version),
        !has_separator(archive_dir),
        !has_separator(lib_dir),
        !has_separator(other_version),
        !has_separator(other_archive_dir),
        !has_separator(other_lib_dir),
    ensures
        sentinel(version, archive_dir, lib_dir, project_dir) == sentinel(
            other_version,
            other_archive_dir,
            other_lib_dir,
            other_project_dir,
        ) <==> (version == other_version && archive_dir == other_archive_dir && lib_dir
            == other_lib_dir && project_text(project_dir) == project_text(other_project_dir)),
{
    let p = project_text(project_dir);
    let q = project_text(other_project_dir);
    let tail = lib_dir + ";"@ + p;
    let other_tail = other_lib_dir + ";"@ + q;
    let mid = archive_dir + ";"@ + tail;
    let other_mid = other_archive_dir + ";"@ + other_tail;
    assert(sentinel(version, archive_dir, lib_dir, project_dir) =~= version + ";"@ + mid);
    assert(sentinel(other_version, other_archive_dir, other_lib_dir, other_project_dir)
        =~= other_version + ";"@ + other_mid);
    if sentinel(version, archive_dir, lib_dir, project_dir) == sentinel(
        other_version,
        other_archive_dir,
        other_lib_dir,
        other_project_dir,
    ) {
        lemma_split_at_separator(version, mid, other_version, other_mid);
        lemma_split_at_separator(archive_dir, tail, other_archive_dir, other_tail);
        lemma_split_at_separator(lib_dir, p, other_lib_dir, q);
    }
}

} // verus!
