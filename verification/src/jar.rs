//! `%JAVA_HOME%\bin\jar` — the invocation builder for creating or updating
//! `.jar` archives from `.class` files.
//!
//! [`Archive::create`] and [`Archive::update`] decide the full argument
//! list, verified against [`archive_argv`]; the unverified shim spawns the
//! process it names and reports its exit status.

use vstd::prelude::*;
use crate::paths::{join, join_seq, EnvVars, PathError, PathErrorKind, Platform};
use crate::search::{find_java_home, find_java_home_spec};
use crate::javac::effective_java_home;

verus! {

/// Create or update a `.jar` file.
#[derive(Clone, Debug, Default)]
pub struct Archive {
    pub java_home: Option<String>,
    pub jar_file: Option<String>,
    pub manifest_file: Option<String>,
    pub entry_point: Option<String>,
    pub verbose: bool,
    pub pack200_normalization: bool,
    pub uncompressed: bool,
    pub preserve_original_filenames: bool,
    pub no_manifest: bool,
    /// For each starting directory, the files taken relative to it.
    pub files: Vec<(String, Vec<String>)>,
}

/// A builder with nothing set.
pub open spec fn archive_is_empty(a: Archive) -> bool {
    a.java_home is None && a.jar_file is None && a.manifest_file is None && a.entry_point is None
        && !a.verbose && !a.pack200_normalization && !a.uncompressed
        && !a.preserve_original_filenames && !a.no_manifest && a.files@.len() == 0
}

/// The single character when the condition holds, nothing otherwise.
pub open spec fn flag_char(c: char, cond: bool) -> Seq<char> {
    if cond {
        seq![c]
    } else {
        Seq::empty()
    }
}

/// The packed flags argument: the operation character, then one character
/// per selected option, in the tool's fixed order. An option that takes a
/// value contributes its character here and its value as a later argument.
pub open spec fn archive_flags(a: Archive, op: char) -> Seq<char> {
    seq![op] + flag_char('v', a.verbose) + flag_char('f', a.jar_file is Some) + flag_char(
        'm',
        a.manifest_file is Some,
    ) + flag_char('n', a.pack200_normalization) + flag_char('e', a.entry_point is Some)
        + flag_char('0', a.uncompressed) + flag_char('P', a.preserve_original_filenames)
        + flag_char('M', a.no_manifest)
}

/// The value alone when present, nothing otherwise.
pub open spec fn opt_value(o: Option<String>) -> Seq<Seq<char>> {
    match o {
        Some(v) => seq![v@],
        None => Seq::empty(),
    }
}

/// `-C dir file…` for each starting directory, in order.
pub open spec fn change_dir_args(fs: Seq<(String, Vec<String>)>) -> Seq<Seq<char>>
    decreases fs.len(),
{
    if fs.len() == 0 {
        Seq::empty()
    } else {
        change_dir_args(fs.drop_last()).push("-C"@).push(fs.last().0@) + fs.last().1.deep_view()
    }
}

/// The full archiver argument list, the program path first: the packed
/// flags, then the values of the options that take one, in the same order
/// as their flag characters, then the per-directory file lists.
pub open spec fn archive_argv(a: Archive, op: char, java_home: Seq<char>, platform: Platform) -> Seq<
    Seq<char>,
> {
    seq![join_seq(platform, java_home, "bin/jar"@), archive_flags(a, op)] + opt_value(a.jar_file)
        + opt_value(a.manifest_file) + opt_value(a.entry_point) + change_dir_args(a.files@)
}

/// The single character as a string when the condition holds, the empty
/// string otherwise.
fn char_if(c: char, cond: bool) -> (r: String)
    ensures
        r@ == flag_char(c, cond),
{
    let mut s = String::new();
    if cond {
        s.push(c);
    }
    proof {
        assert(s@ =~= flag_char(c, cond));
    }
    s
}

impl Archive {
    /// A builder with nothing set.
    pub fn new() -> (r: Archive)
        ensures
            archive_is_empty(r),
    {
        Archive {
            java_home: None,
            jar_file: None,
            manifest_file: None,
            entry_point: None,
            verbose: false,
            pack200_normalization: false,
            uncompressed: false,
            preserve_original_filenames: false,
            no_manifest: false,
            files: Vec::new(),
        }
    }

    /// The argument list that creates a new archive.
    pub fn create(&self, platform: Platform, env: &EnvVars) -> (r: Result<Vec<String>, PathError>)
        ensures
            match effective_java_home(self.java_home, platform, *env) {
                Some(jh) => r matches Ok(args) && args.deep_view() == archive_argv(
                    *self,
                    'c',
                    jh,
                    platform,
                ),
                None => r matches Err(e) && e.kind == PathErrorKind::NotFound && e.message@
                    == "JAVA_HOME not set and could not be found, unable to run"@,
            },
    {
        self.command('c', platform, env)
    }

    /// The argument list that updates an existing archive.
    pub fn update(&self, platform: Platform, env: &EnvVars) -> (r: Result<Vec<String>, PathError>)
        ensures
            match effective_java_home(self.java_home, platform, *env) {
                Some(jh) => r matches Ok(args) && args.deep_view() == archive_argv(
                    *self,
                    'u',
                    jh,
                    platform,
                ),
                None => r matches Err(e) && e.kind == PathErrorKind::NotFound && e.message@
                    == "JAVA_HOME not set and could not be found, unable to run"@,
            },
    {
        self.command('u', platform, env)
    }

    /// The packed flags argument for the given operation character.
    fn flags_arg(&self, op: char) -> (r: String)
        ensures
            r@ == archive_flags(*self, op),
    {
        let mut flags = String::new();
        flags.push(op);
        proof {
            assert(flags@ =~= seq![op]);
        }
        flags.append(char_if('v', self.verbose).as_str());
        flags.append(char_if('f', self.jar_file.is_some()).as_str());
        flags.append(char_if('m', self.manifest_file.is_some()).as_str());
        flags.append(char_if('n', self.pack200_normalization).as_str());
        flags.append(char_if('e', self.entry_point.is_some()).as_str());
        flags.append(char_if('0', self.uncompressed).as_str());
        flags.append(char_if('P', self.preserve_original_filenames).as_str());
        flags.append(char_if('M', self.no_manifest).as_str());
        flags
    }

    /// The full archiver argument list for the given operation character,
    /// the program path first — or the error when no installation is named
    /// anywhere.
    fn command(&self, op: char, platform: Platform, env: &EnvVars) -> (r: Result<
        Vec<String>,
        PathError,
    >)
        ensures
            match effective_java_home(self.java_home, platform, *env) {
                Some(jh) => r matches Ok(args) && args.deep_view() == archive_argv(
                    *self,
                    op,
                    jh,
                    platform,
                ),
                None => r matches Err(e) && e.kind == PathErrorKind::NotFound && e.message@
                    == "JAVA_HOME not set and could not be found, unable to run"@,
            },
    {
        let java_home: String = match &self.java_home {
            Some(p) => p.clone(),
            None => match find_java_home(platform, env) {
                Some(p) => p,
                None => {
                    return Err(
                        PathError {
                            kind: PathErrorKind::NotFound,
                            message: String::from_str(
                                "JAVA_HOME not set and could not be found, unable to run",
                            ),
                        },
                    );
                },
            },
        };
        let flags = self.flags_arg(op);
        let mut args: Vec<String> = Vec::new();
        args.push(join(platform, java_home.as_str(), "bin/jar"));
        args.push(flags);
        if let Some(jar_file) = &self.jar_file {
            args.push(jar_file.clone());
        }
        if let Some(manifest_file) = &self.manifest_file {
            args.push(manifest_file.clone());
        }
        if let Some(entry_point) = &self.entry_point {
            args.push(entry_point.clone());
        }
        let ghost before_files = args.deep_view();
        proof {
            assert(before_files =~= seq![
                join_seq(platform, java_home@, "bin/jar"@),
                archive_flags(*self, op),
            ] + opt_value(self.jar_file) + opt_value(self.manifest_file) + opt_value(
                self.entry_point,
            ));
        }
        let n = self.files.len();
        let mut i: usize = 0;
        proof {
            assert(self.files@.take(0) =~= Seq::<(String, Vec<String>)>::empty());
            assert(args.deep_view() =~= before_files + change_dir_args(self.files@.take(0)));
        }
        while i < n
            invariant
                n == self.files@.len(),
                i <= n,
                args.deep_view() == before_files + change_dir_args(self.files@.take(i as int)),
            decreases n - i,
        {
            let ghost pre = args.deep_view();
            args.push(String::from_str("-C"));
            args.push(self.files[i].0.clone());
            proof {
                assert(args.deep_view() =~= pre.push("-C"@).push(self.files@[i as int].0@));
            }
            crate::cmd::push_all(&mut args, &self.files[i].1);
            proof {
                assert(self.files@.take(i + 1).drop_last() =~= self.files@.take(i as int));
                assert(args.deep_view() =~= before_files + change_dir_args(
                    self.files@.take(i + 1),
                ));
            }
            i = i + 1;
        }
        proof {
            assert(self.files@.take(n as int) =~= self.files@);
            assert(args.deep_view() =~= archive_argv(*self, op, java_home@, platform));
        }
        Ok(args)
    }
}

} // verus!
