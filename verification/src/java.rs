//! `%JAVA_HOME%\bin\java` — the invocation builder for running the
//! runtime's launcher.
//!
//! [`Run::command`] decides the argument list the launcher is given,
//! verified against [`run_argv`]; the unverified shim spawns the process
//! it names.

use vstd::prelude::*;
use crate::cmd::{flag_if, kv_args, pair_args, push_flag_if, push_kv_args, push_pair_args};
use crate::paths::{join, join_seq, EnvVars, PathError, PathErrorKind, Platform};
use crate::search::find_java_home;
use crate::javac::effective_java_home;

verus! {

/// An invocation of the launcher, field by field.
#[derive(Clone, Debug, Default)]
pub struct Run {
    pub java_home: Option<String>,
    pub files: Vec<String>,
    pub classpaths: Vec<String>,
    pub system_properties: Vec<(String, String)>,
    pub verbose_class: bool,
    pub verbose_gc: bool,
    pub verbose_jni: bool,
    pub out_classes: Option<String>,
    pub out_sources: Option<String>,
    pub out_headers: Option<String>,
    pub enable_assertions: Vec<(String, bool)>,
    pub enable_system_assertions: Option<bool>,
}

/// A builder with nothing set.
pub open spec fn run_is_empty(r: Run) -> bool {
    r.java_home is None && r.files@.len() == 0 && r.classpaths@.len() == 0
        && r.system_properties@.len() == 0 && !r.verbose_class && !r.verbose_gc && !r.verbose_jni
        && r.out_classes is None && r.out_sources is None && r.out_headers is None
        && r.enable_assertions@.len() == 0 && r.enable_system_assertions is None
}

/// The launcher argument list this builder decides, the program path
/// first: each classpath behind `-cp`, each system property as a
/// `-D<key>=<value>`, then the selected `-verbose:…` flags.
pub open spec fn run_argv(r: Run, java_home: Seq<char>, platform: Platform) -> Seq<Seq<char>> {
    seq![join_seq(platform, java_home, "bin/java"@)] + pair_args("-cp"@, r.classpaths.deep_view())
        + kv_args("-D"@, r.system_properties@) + flag_if("-verbose:class"@, r.verbose_class)
        + flag_if("-verbose:gc"@, r.verbose_gc) + flag_if("-verbose:jni"@, r.verbose_jni)
}

impl Run {
    /// A builder with nothing set.
    pub fn new() -> (r: Run)
        ensures
            run_is_empty(r),
    {
        Run {
            java_home: None,
            files: Vec::new(),
            classpaths: Vec::new(),
            system_properties: Vec::new(),
            verbose_class: false,
            verbose_gc: false,
            verbose_jni: false,
            out_classes: None,
            out_sources: None,
            out_headers: None,
            enable_assertions: Vec::new(),
            enable_system_assertions: None,
        }
    }

    /// The launcher argument list this builder decides, the program path
    /// first — or the error when no installation is named anywhere.
    pub fn command(&self, platform: Platform, env: &EnvVars) -> (r: Result<Vec<String>, PathError>)
        ensures
            match effective_java_home(self.java_home, platform, *env) {
                Some(jh) => r matches Ok(args) && args.deep_view() == run_argv(
                    *self,
                    jh,
                    platform,
                ),
                None => r matches Err(e) && e.kind == PathErrorKind::NotFound && e.message@
                    == "JAVA_HOME not set and could not be found, unable to run"@,
            },
    {
        let java_home: String = match &self.java_home {
            Some(p) => p.clone(),
            None => match find_java_home(platform, env) {
                Some(p) => p,
                None => {
                    return Err(
                        PathError {
                            kind: PathErrorKind::NotFound,
                            message: String::from_str(
                                "JAVA_HOME not set and could not be found, unable to run",
                            ),
                        },
                    );
                },
            },
        };
        let mut args: Vec<String> = Vec::new();
        args.push(join(platform, java_home.as_str(), "bin/java"));
        proof {
            assert(args.deep_view() =~= seq![join_seq(platform, java_home@, "bin/java"@)]);
        }
        push_pair_args(&mut args, "-cp", &self.classpaths);
        push_kv_args(&mut args, "-D", &self.system_properties);
        push_flag_if(&mut args, "-verbose:class", self.verbose_class);
        push_flag_if(&mut args, "-verbose:gc", self.verbose_gc);
        push_flag_if(&mut args, "-verbose:jni", self.verbose_jni);
        proof {
            assert(args.deep_view() =~= run_argv(*self, java_home@, platform));
        }
        Ok(args)
    }
}

} // verus!
