//! The decisions behind the build-integration entry point: which
//! debug-information setting a build profile maps to, which files count as
//! runtime source files, whether they contain an entry point, and where
//! the produced archive is placed.
//!
//! The unverified shim walks the source tree, creates the output
//! directories, spawns the compiler and archiver invocations the builders
//! decide, and prints the build-system directives; every choice it prints
//! or passes on is made here.

use vstd::prelude::*;
use crate::javac::DebugInfo;
use crate::paths::{join, join_seq, Platform};
use crate::text::{seq_starts_with, starts_with_str, str_eq};

verus! {

/// Whether the character separates path components on this platform.
pub open spec fn is_sep(platform: Platform, c: char) -> bool {
    c == '/' || (platform is Windows && c == '\\')
}

/// The position of the last separator in `p`, if any.
pub open spec fn last_sep_index(platform: Platform, p: Seq<char>) -> Option<int>
    decreases p.len(),
{
    if p.len() == 0 {
        None
    } else if is_sep(platform, p.last()) {
        Some(p.len() - 1)
    } else {
        last_sep_index(platform, p.drop_last())
    }
}

/// What `last_sep_index` finds: the position it reports holds a separator
/// and no later one does; it reports none exactly when no separator
/// occurs.
pub proof fn lemma_last_sep_index(platform: Platform, p: Seq<char>)
    ensures
        match last_sep_index(platform, p) {
            Some(i) => 0 <= i < p.len() && is_sep(platform, p[i]) && forall|j: int|
                i < j < p.len() ==> !is_sep(platform, p[j]),
            None => forall|j: int| 0 <= j < p.len() ==> !is_sep(platform, p[j]),
        },
    decreases p.len(),
{
    if p.len() > 0 && !is_sep(platform, p.last()) {
        lemma_last_sep_index(platform, p.drop_last());
        assert forall|j: int| 0 <= j < p.len() - 1 implies p.drop_last()[j] == p[j] by {}
    }
}

/// The text after the last separator: the path's final component, or the
/// whole path when it has no separator. A trailing separator yields the
/// empty name.
pub open spec fn file_name_seq(platform: Platform, p: Seq<char>) -> Seq<char> {
    match last_sep_index(platform, p) {
        None => p,
        Some(i) => p.skip(i + 1),
    }
}

/// The text before the last separator: the path's parent, or empty when it
/// has no separator. This models popping one component off a path.
pub open spec fn parent_seq(platform: Platform, p: Seq<char>) -> Seq<char> {
    match last_sep_index(platform, p) {
        None => Seq::empty(),
        Some(i) => p.take(i),
    }
}

/// The position of the last separator in `p`, scanning from the end.
fn rfind_sep(platform: Platform, p: &str) -> (r: Option<usize>)
    ensures
        match r {
            Some(i) => i < p@.len() && last_sep_index(platform, p@) == Some(i as int),
            None => last_sep_index(platform, p@) is None,
        },
{
    let n: usize = p.unicode_len();
    let mut i: usize = n;
    while i > 0
        invariant
            n == p@.len(),
            i <= n,
            forall|j: int| i <= j < n ==> !is_sep(platform, p@[j]),
        decreases i,
    {
        i = i - 1;
        let c = p.get_char(i);
        let sep = if let Platform::Windows = platform {
            c == '/' || c == '\\'
        } else {
            c == '/'
        };
        if sep {
            proof {
                lemma_last_sep_index(platform, p@);
                let li = last_sep_index(platform, p@);
                if li is Some {
                    let k = li->0;
                    assert(is_sep(platform, p@[k]));
                    assert(!(k < i)) by {
                        assert(is_sep(platform, p@[i as int]));
                    }
                    assert(!(i < k));
                } else {
                    assert(is_sep(platform, p@[i as int]));
                }
            }
            return Some(i);
        }
        proof {
            assert(!is_sep(platform, p@[i as int]));
        }
    }
    proof {
        lemma_last_sep_index(platform, p@);
        let li = last_sep_index(platform, p@);
        if li is Some {
            let k = li->0;
            assert(is_sep(platform, p@[k]));
        }
    }
    None
}

/// The path's final component.
pub fn file_name_of(platform: Platform, p: &str) -> (r: String)
    ensures
        r@ == file_name_seq(platform, p@),
{
    let n: usize = p.unicode_len();
    match rfind_sep(platform, p) {
        Some(i) => String::from_str(p.substring_char(i + 1, n)),
        None => String::from_str(p),
    }
}

/// The path's parent: everything before the last separator.
pub fn parent_of(platform: Platform, p: &str) -> (r: String)
    ensures
        r@ == parent_seq(platform, p@),
{
    match rfind_sep(platform, p) {
        Some(i) => String::from_str(p.substring_char(0, i)),
        None => String::new(),
    }
}

/// The debug-information setting each build profile maps to: the debug
/// profile keeps everything, the release profile keeps nothing, and a
/// custom profile makes no choice.
pub fn debug_info_for_profile(profile: &str) -> (r: Option<DebugInfo>)
    ensures
        profile@ == "debug"@ ==> (r matches Some(d) && d.bits == 0xFFFF_FFFFu32),
        profile@ != "debug"@ && profile@ == "release"@ ==> (r matches Some(d) && d.bits == 0),
        profile@ != "debug"@ && profile@ != "release"@ ==> r is None,
{
    if str_eq(profile, "debug") {
        Some(DebugInfo::all())
    } else if str_eq(profile, "release") {
        Some(DebugInfo::none())
    } else {
        None
    }
}

/// The name ends in the runtime source extension, compared without regard
/// to letter case.
pub open spec fn matches_java_ext(s: Seq<char>) -> bool {
    s.len() >= 5 && {
        let t = s.skip(s.len() - 5);
        t[0] == '.' && (t[1] == 'j' || t[1] == 'J') && (t[2] == 'a' || t[2] == 'A') && (t[3] == 'v'
            || t[3] == 'V') && (t[4] == 'a' || t[4] == 'A')
    }
}

/// Whether the file name ends in the runtime source extension.
pub fn is_java_src_name(name: &str) -> (r: bool)
    ensures
        r == matches_java_ext(name@),
{
    let n: usize = name.unicode_len();
    if n < 5 {
        return false;
    }
    let c0 = name.get_char(n - 5);
    let c1 = name.get_char(n - 4);
    let c2 = name.get_char(n - 3);
    let c3 = name.get_char(n - 2);
    let c4 = name.get_char(n - 1);
    proof {
        let t = name@.skip(n - 5);
        assert(t[0] == name@[n - 5]);
        assert(t[1] == name@[n - 4]);
        assert(t[2] == name@[n - 3]);
        assert(t[3] == name@[n - 2]);
        assert(t[4] == name@[n - 1]);
    }
    c0 == '.' && (c1 == 'j' || c1 == 'J') && (c2 == 'a' || c2 == 'A') && (c3 == 'v' || c3 == 'V')
        && (c4 == 'a' || c4 == 'A')
}

/// The heuristic entry-point detection: a source tree with a file named
/// `Main.java` anywhere is taken to have the entry point `Main`.
pub fn entry_point_of(platform: Platform, files: &Vec<String>) -> (r: Option<String>)
    ensures
        r is Some <==> exists|k: int|
            0 <= k < files@.len() && file_name_seq(platform, files@[k]@) == "Main.java"@,
        r matches Some(s) ==> s@ == "Main"@,
{
    let n = files.len();
    let mut i: usize = 0;
    while i < n
        invariant
            n == files@.len(),
            i <= n,
            forall|j: int| 0 <= j < i ==> file_name_seq(platform, files@[j]@) != "Main.java"@,
        decreases n - i,
    {
        let name = file_name_of(platform, files[i].as_str());
        if str_eq(name.as_str(), "Main.java") {
            return Some(String::from_str("Main"));
        }
        i = i + 1;
    }
    None
}

/// Where the produced archive goes, before the file name is appended: next
/// to the build scripts' other outputs when the source has no entry point;
/// with one, three components are peeled off the build output directory —
/// which must read `build/<package>-…/out` — so that the archive lands in
/// the profile directory itself. A build output directory of any other
/// shape falls back to the first choice, with a warning.
pub open spec fn jar_dir_spec(
    platform: Platform,
    out_dir: Seq<char>,
    package_name: Seq<char>,
    out_jars: Seq<char>,
    has_entry_point: bool,
) -> (Seq<char>, bool) {
    if !has_entry_point {
        (out_jars, false)
    } else {
        let p1 = parent_seq(platform, out_dir);
        let p2 = parent_seq(platform, p1);
        let p3 = parent_seq(platform, p2);
        let ok = file_name_seq(platform, out_dir) == "out"@ && seq_starts_with(
            file_name_seq(platform, p1),
            package_name,
        ) && file_name_seq(platform, p2) == "build"@;
        if ok {
            (p3, false)
        } else {
            (out_jars, true)
        }
    }
}

/// The full path of the produced archive, `<dir>/<package>.jar`, and
/// whether the fallback warning is due.
pub open spec fn jar_path_spec(
    platform: Platform,
    out_dir: Seq<char>,
    package_name: Seq<char>,
    out_jars: Seq<char>,
    has_entry_point: bool,
) -> (Seq<char>, bool) {
    let (dir, warn) = jar_dir_spec(platform, out_dir, package_name, out_jars, has_entry_point);
    (join_seq(platform, dir, package_name + ".jar"@), warn)
}

/// Decide where the produced archive goes. Returns its full path and
/// whether the shim must print the fallback warning about the unexpected
/// build output directory.
pub fn metabuild_jar_path(
    platform: Platform,
    out_dir: &str,
    package_name: &str,
    out_jars: &str,
    has_entry_point: bool,
) -> (r: (String, bool))
    ensures
        r.0@ == jar_path_spec(platform, out_dir@, package_name@, out_jars@, has_entry_point).0,
        r.1 == jar_path_spec(platform, out_dir@, package_name@, out_jars@, has_entry_point).1,
{
    let mut jar_name = String::from_str(package_name);
    jar_name.append(".jar");
    if !has_entry_point {
        let p = join(platform, out_jars, jar_name.as_str());
        return (p, false);
    }
    let name0 = file_name_of(platform, out_dir);
    let p1 = parent_of(platform, out_dir);
    let name1 = file_name_of(platform, p1.as_str());
    let p2 = parent_of(platform, p1.as_str());
    let name2 = file_name_of(platform, p2.as_str());
    let p3 = parent_of(platform, p2.as_str());
    let ok = str_eq(name0.as_str(), "out") && starts_with_str(name1.as_str(), package_name)
        && str_eq(name2.as_str(), "build");
    if ok {
        (join(platform, p3.as_str(), jar_name.as_str()), false)
    } else {
        (join(platform, out_jars, jar_name.as_str()), true)
    }
}

} // verus!
