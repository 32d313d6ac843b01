//! A lighter JDK search used by the tool-invocation builders: environment
//! variables only, no probing of the file system.

use vstd::prelude::*;
use crate::paths::{join, join_seq, EnvVars, Platform};

verus! {

/// Where a suitable `JAVA_HOME` is: the variable itself when set, else the
/// development-environment runtime under either program directory. No
/// existence check is made; the first named location wins.
pub open spec fn find_java_home_spec(platform: Platform, env: EnvVars) -> Option<Seq<char>> {
    match env.java_home {
        Some(p) => Some(p@),
        None => match env.program_w6432 {
            Some(p) => Some(join_seq(platform, p@, "Android\\Android Studio\\jre"@)),
            None => match env.program_files {
                Some(p) => Some(join_seq(platform, p@, "Android\\Android Studio\\jre"@)),
                None => None,
            },
        },
    }
}

/// Find a suitable `JAVA_HOME`.
pub fn find_java_home(platform: Platform, env: &EnvVars) -> (r: Option<String>)
    ensures
        match find_java_home_spec(platform, *env) {
            Some(p) => r matches Some(s) && s@ == p,
            None => r is None,
        },
{
    match &env.java_home {
        Some(p) => Some(p.clone()),
        None => match &env.program_w6432 {
            Some(p) => Some(join(platform, p.as_str(), "Android\\Android Studio\\jre")),
            None => match &env.program_files {
                Some(p) => Some(join(platform, p.as_str(), "Android\\Android Studio\\jre")),
                None => None,
            },
        },
    }
}

} // verus!
