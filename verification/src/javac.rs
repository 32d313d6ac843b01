//! `%JAVA_HOME%\bin\javac` — the invocation builder for compiling `.class`
//! files from `.java` files.
//!
//! [`Compile::command`] decides the full argument list, verified against
//! [`compile_argv`]; the unverified shim spawns the process it names and
//! reports its exit status.

use vstd::prelude::*;
use crate::cmd::{
    flag_if,
    join_with,
    kv_args,
    opt_arg,
    pair_args,
    push_all,
    push_flag_if,
    push_kv_args,
    push_opt_arg,
    push_pair_args,
    join_with_char,
};
use crate::paths::{join, join_seq, EnvVars, PathError, PathErrorKind, Platform};
use crate::search::{find_java_home, find_java_home_spec};

verus! {

/// Which categories of debugging information the compiler is asked to
/// emit, as a set of bits.
#[derive(Clone, Copy, Debug, PartialEq, Eq, Hash, Structural)]
pub struct DebugInfo {
    /// The selected categories.
    pub bits: u32,
}

/// The bit selecting line-number tables.
pub const DEBUG_INFO_LINES: u32 = 1;

/// The bit selecting local-variable tables.
pub const DEBUG_INFO_VARS: u32 = 2;

/// The bit selecting source-file attribution.
pub const DEBUG_INFO_SOURCE: u32 = 4;

impl DebugInfo {
    /// No debugging information.
    pub fn none() -> (r: DebugInfo)
        ensures
            r.bits == 0,
    {
        DebugInfo { bits: 0 }
    }

    /// Line-number tables.
    pub fn lines() -> (r: DebugInfo)
        ensures
            r.bits == DEBUG_INFO_LINES,
    {
        DebugInfo { bits: DEBUG_INFO_LINES }
    }

    /// Local-variable tables.
    pub fn vars() -> (r: DebugInfo)
        ensures
            r.bits == DEBUG_INFO_VARS,
    {
        DebugInfo { bits: DEBUG_INFO_VARS }
    }

    /// Source-file attribution.
    pub fn source() -> (r: DebugInfo)
        ensures
            r.bits == DEBUG_INFO_SOURCE,
    {
        DebugInfo { bits: DEBUG_INFO_SOURCE }
    }

    /// Every category.
    pub fn all() -> (r: DebugInfo)
        ensures
            r.bits == 0xFFFF_FFFFu32,
    {
        DebugInfo { bits: 0xFFFF_FFFF }
    }

    /// Every category of `other` is selected here too.
    pub open spec fn spec_contains(self, other: DebugInfo) -> bool {
        self.bits & other.bits == other.bits
    }

    /// Whether every category of `other` is selected here too.
    pub fn contains(&self, other: DebugInfo) -> (r: bool)
        ensures
            r == self.spec_contains(other),
    {
        self.bits & other.bits == other.bits
    }
}

impl Default for DebugInfo {
    /// Every category, the compiler's most informative setting.
    fn default() -> (r: DebugInfo)
        ensures
            r.bits == 0xFFFF_FFFFu32,
    {
        DebugInfo { bits: 0xFFFF_FFFF }
    }
}

/// An invocation of the compiler, field by field. Every collection is
/// emitted in order; absent options are omitted.
#[derive(Clone, Debug, Default)]
pub struct Compile {
    pub java_home: Option<String>,
    pub debug_info: Option<DebugInfo>,
    pub nowarn: bool,
    pub verbose: bool,
    pub deprecation: bool,
    pub class_paths: Vec<String>,
    pub source_paths: Vec<String>,
    pub boot_class_paths: Vec<String>,
    pub extension_dirs: Vec<String>,
    pub endorsed_dirs: Vec<String>,
    pub annotation_processors: Vec<String>,
    pub annotation_processor_paths: Vec<String>,
    pub keep_parameter_names: bool,
    pub out_classes: Option<String>,
    pub out_sources: Option<String>,
    pub out_headers: Option<String>,
    pub annotation_parameters: Vec<(String, String)>,
    pub fatal_warnings: bool,
    pub files: Vec<String>,
}

/// A builder with nothing set: no paths, no flags, no files, and no
/// debug-information choice.
pub open spec fn compile_is_empty(c: Compile) -> bool {
    c.java_home is None && c.debug_info is None && !c.nowarn && !c.verbose && !c.deprecation
        && c.class_paths@.len() == 0 && c.source_paths@.len() == 0 && c.boot_class_paths@.len()
        == 0 && c.extension_dirs@.len() == 0 && c.endorsed_dirs@.len() == 0
        && c.annotation_processors@.len() == 0 && c.annotation_processor_paths@.len() == 0
        && !c.keep_parameter_names && c.out_classes is None && c.out_sources is None
        && c.out_headers is None && c.annotation_parameters@.len() == 0 && !c.fatal_warnings
        && c.files@.len() == 0
}

/// The debug-information arguments: nothing when no choice was made,
/// `-g:none` for the empty set, `-g` for the full set, and one `-g:<kind>`
/// per selected category otherwise.
pub open spec fn debug_args(di: Option<DebugInfo>) -> Seq<Seq<char>> {
    match di {
        None => Seq::empty(),
        Some(d) => if d.bits == 0 {
            seq!["-g:none"@]
        } else if d.bits == 0xFFFF_FFFFu32 {
            seq!["-g"@]
        } else {
            flag_if("-g:lines"@, d.spec_contains(DebugInfo { bits: DEBUG_INFO_LINES })) + flag_if(
                "-g:vars"@,
                d.spec_contains(DebugInfo { bits: DEBUG_INFO_VARS }),
            ) + flag_if("-g:source"@, d.spec_contains(DebugInfo { bits: DEBUG_INFO_SOURCE }))
        },
    }
}

/// The annotation-processor arguments: the processors joined by commas
/// behind `-processors`, omitted entirely when the joined list is empty.
pub open spec fn processors_args(ps: Seq<Seq<char>>) -> Seq<Seq<char>> {
    if join_with(ps, ',').len() != 0 {
        seq!["-processors"@, join_with(ps, ',')]
    } else {
        Seq::empty()
    }
}

/// The full compiler argument list, the program path first.
pub open spec fn compile_argv(c: Compile, java_home: Seq<char>, platform: Platform) -> Seq<
    Seq<char>,
> {
    seq![join_seq(platform, join_seq(platform, java_home, "bin"@), "javac"@)] + debug_args(
        c.debug_info,
    ) + pair_args("-cp"@, c.class_paths.deep_view()) + pair_args(
        "-sourcepath"@,
        c.source_paths.deep_view(),
    ) + pair_args("-bootclasspath"@, c.boot_class_paths.deep_view()) + pair_args(
        "-extdirs"@,
        c.extension_dirs.deep_view(),
    ) + processors_args(c.annotation_processors.deep_view()) + pair_args(
        "-processorpath"@,
        c.annotation_processor_paths.deep_view(),
    ) + opt_arg("-d"@, c.out_classes) + opt_arg("-s"@, c.out_sources) + opt_arg(
        "-h"@,
        c.out_headers,
    ) + flag_if("-nowarn"@, c.nowarn) + flag_if("-verbose"@, c.verbose) + flag_if(
        "-deprecation"@,
        c.deprecation,
    ) + flag_if("-parameters"@, c.keep_parameter_names) + flag_if("-Werror"@, c.fatal_warnings)
        + kv_args("-A"@, c.annotation_parameters@) + c.files.deep_view()
}

/// The installation whose compiler is run: the builder's own when set,
/// else the environment's.
pub open spec fn effective_java_home(
    java_home: Option<String>,
    platform: Platform,
    env: EnvVars,
) -> Option<Seq<char>> {
    match java_home {
        Some(p) => Some(p@),
        None => find_java_home_spec(platform, env),
    }
}

impl Compile {
    /// A builder with nothing set.
    pub fn new() -> (r: Compile)
        ensures
            compile_is_empty(r),
    {
        Compile {
            java_home: None,
            debug_info: None,
            nowarn: false,
            verbose: false,
            deprecation: false,
            class_paths: Vec::new(),
            source_paths: Vec::new(),
            boot_class_paths: Vec::new(),
            extension_dirs: Vec::new(),
            endorsed_dirs: Vec::new(),
            annotation_processors: Vec::new(),
            annotation_processor_paths: Vec::new(),
            keep_parameter_names: false,
            out_classes: None,
            out_sources: None,
            out_headers: None,
            annotation_parameters: Vec::new(),
            fatal_warnings: false,
            files: Vec::new(),
        }
    }

    /// The full argument list of the compiler invocation this builder
    /// describes, the program path first — or the error when no
    /// installation is named anywhere. The unverified shim spawns exactly
    /// this list and reports the exit status.
    pub fn command(&self, platform: Platform, env: &EnvVars) -> (r: Result<Vec<String>, PathError>)
        ensures
            match effective_java_home(self.java_home, platform, *env) {
                Some(jh) => r matches Ok(args) && args.deep_view() == compile_argv(
                    *self,
                    jh,
                    platform,
                ),
                None => r matches Err(e) && e.kind == PathErrorKind::NotFound && e.message@
                    == "JAVA_HOME not set and could not be found, unable to run"@,
            },
    {
        let java_home: String = match &self.java_home {
            Some(p) => p.clone(),
            None => match find_java_home(platform, env) {
                Some(p) => p,
                None => {
                    return Err(
                        PathError {
                            kind: PathErrorKind::NotFound,
                            message: String::from_str(
                                "JAVA_HOME not set and could not be found, unable to run",
                            ),
                        },
                    );
                },
            },
        };
        let mut args: Vec<String> = Vec::new();
        args.push(join(platform, join(platform, java_home.as_str(), "bin").as_str(), "javac"));
        let ghost argv0 = seq![
            join_seq(platform, join_seq(platform, java_home@, "bin"@), "javac"@),
        ];
        proof {
            assert(args.deep_view() =~= argv0);
        }
        match &self.debug_info {
            None => {},
            Some(d) => {
                if d.bits == 0 {
                    args.push(String::from_str("-g:none"));
                } else if d.bits == 0xFFFF_FFFF {
                    args.push(String::from_str("-g"));
                } else {
                    push_flag_if(&mut args, "-g:lines", d.contains(DebugInfo::lines()));
                    push_flag_if(&mut args, "-g:vars", d.contains(DebugInfo::vars()));
                    push_flag_if(&mut args, "-g:source", d.contains(DebugInfo::source()));
                }
            },
        }
        proof {
            assert(args.deep_view() =~= argv0 + debug_args(self.debug_info));
        }
        push_pair_args(&mut args, "-cp", &self.class_paths);
        push_pair_args(&mut args, "-sourcepath", &self.source_paths);
        push_pair_args(&mut args, "-bootclasspath", &self.boot_class_paths);
        push_pair_args(&mut args, "-extdirs", &self.extension_dirs);
        let ghost before_processors = args.deep_view();
        let processors = join_with_char(&self.annotation_processors, ',');
        if processors.as_str().unicode_len() != 0 {
            args.push(String::from_str("-processors"));
            args.push(processors);
        }
        proof {
            assert(args.deep_view() =~= before_processors + processors_args(
                self.annotation_processors.deep_view(),
            ));
        }
        push_pair_args(&mut args, "-processorpath", &self.annotation_processor_paths);
        push_opt_arg(&mut args, "-d", &self.out_classes);
        push_opt_arg(&mut args, "-s", &self.out_sources);
        push_opt_arg(&mut args, "-h", &self.out_headers);
        push_flag_if(&mut args, "-nowarn", self.nowarn);
        push_flag_if(&mut args, "-verbose", self.verbose);
        push_flag_if(&mut args, "-deprecation", self.deprecation);
        push_flag_if(&mut args, "-parameters", self.keep_parameter_names);
        push_flag_if(&mut args, "-Werror", self.fatal_warnings);
        push_kv_args(&mut args, "-A", &self.annotation_parameters);
        push_all(&mut args, &self.files);
        proof {
            assert(args.deep_view() =~= compile_argv(*self, java_home@, platform));
        }
        Ok(args)
    }
}

} // verus!
