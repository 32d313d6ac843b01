//! Known machine architectures a runtime installation may target.

use vstd::prelude::*;
use crate::paths::{EnvVars, Platform};

verus! {

/// A list of known JVM architectures.
#[derive(Clone, Copy, Debug, PartialEq, Eq, PartialOrd, Ord, Hash, Structural)]
pub enum Arch {
    X86_64,
    X86,
    AArch64,
    ARM,
    /// Reserved so that adding architectures later does not break callers.
    #[allow(non_camel_case_types)]
    _non_exhaustive,
}

/// The "Program Files" directory that holds software of the given
/// architecture, where the platform keeps one per architecture.
pub open spec fn program_files_spec(arch: Arch, platform: Platform, env: EnvVars) -> Option<
    Seq<char>,
> {
    if platform is Windows {
        match arch {
            Arch::X86_64 => match env.program_w6432 {
                Some(p) => Some(p@),
                None => match env.program_files {
                    Some(p) => Some(p@),
                    None => None,
                },
            },
            Arch::X86 => match env.program_files_x86 {
                Some(p) => Some(p@),
                None => match env.program_files {
                    Some(p) => Some(p@),
                    None => None,
                },
            },
            _ => None,
        }
    } else {
        None
    }
}

impl Arch {
    /// Return the "Program Files" directory for this architecture, if the
    /// environment names one — or if it *should*. Only the platform whose
    /// loader keeps per-architecture program directories has any.
    pub fn program_files(self, platform: Platform, env: &EnvVars) -> (r: Option<String>)
        ensures
            match program_files_spec(self, platform, *env) {
                Some(p) => r matches Some(s) && s@ == p,
                None => r is None,
            },
    {
        if let Platform::Windows = platform {
            match self {
                Arch::X86_64 => match &env.program_w6432 {
                    Some(p) => Some(p.clone()),
                    None => match &env.program_files {
                        Some(p) => Some(p.clone()),
                        None => None,
                    },
                },
                Arch::X86 => match &env.program_files_x86 {
                    Some(p) => Some(p.clone()),
                    None => match &env.program_files {
                        Some(p) => Some(p.clone()),
                        None => None,
                    },
                },
                _ => None,
            }
        } else {
            None
        }
    }
}

} // verus!
