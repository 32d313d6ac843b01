//! JDK and JVM path discovery.
//!
//! The heuristics themselves — which environment variables take precedence,
//! which installation directories are probed, in what order, and which
//! entry of a probed directory wins — are decided and verified here. The
//! unverified shim merely snapshots the environment into an [`EnvVars`] and
//! the relevant directory listings and existence checks into an [`FsView`],
//! and hands both in as plain values.

use vstd::prelude::*;
use crate::arch::Arch;
use crate::text::{
    find_char,
    seq_ends_with,
    seq_starts_with,
    split_at_first,
    starts_with_str,
    ends_with_str,
    str_eq,
};

verus! {

/// The flavor of platform the host process runs on, as far as path rules
/// differ between them.
#[derive(Clone, Copy, Debug, PartialEq, Eq, Structural)]
pub enum Platform {
    Windows,
    MacOs,
    OtherUnix,
}

/// The separator this platform's path-joining inserts.
pub open spec fn path_sep(platform: Platform) -> char {
    if platform is Windows {
        '\\'
    } else {
        '/'
    }
}

/// The separator character for the given platform.
pub fn separator(platform: Platform) -> (c: char)
    ensures
        c == path_sep(platform),
{
    if let Platform::Windows = platform {
        '\\'
    } else {
        '/'
    }
}

/// `base`, the platform's separator, then `name`. This models joining a
/// relative component onto a directory path.
pub open spec fn join_seq(platform: Platform, base: Seq<char>, name: Seq<char>) -> Seq<char> {
    base + seq![path_sep(platform)] + name
}

/// Join one relative component onto a directory path.
pub fn join(platform: Platform, base: &str, name: &str) -> (r: String)
    ensures
        r@ == join_seq(platform, base@, name@),
{
    let mut r = String::from_str(base);
    r.push(separator(platform));
    r.append(name);
    proof {
        assert(r@ =~= join_seq(platform, base@, name@));
    }
    r
}

/// A snapshot of the environment variables the discovery heuristics read.
/// A field is `None` when the variable is unset.
#[derive(Clone, Debug)]
pub struct EnvVars {
    /// `JAVA_HOME`.
    pub java_home: Option<String>,
    /// `ANDROID_HOME`.
    pub android_home: Option<String>,
    /// `ANDROID_SDK_ROOT`.
    pub android_sdk_root: Option<String>,
    /// `HOME`.
    pub home: Option<String>,
    /// `ProgramW6432`.
    pub program_w6432: Option<String>,
    /// `ProgramFiles`.
    pub program_files: Option<String>,
    /// `ProgramFiles(x86)`.
    pub program_files_x86: Option<String>,
    /// `LOCALAPPDATA`.
    pub local_app_data: Option<String>,
}

impl EnvVars {
    /// A snapshot with every variable unset.
    pub fn empty() -> (r: EnvVars)
        ensures
            r.java_home is None,
            r.android_home is None,
            r.android_sdk_root is None,
            r.home is None,
            r.program_w6432 is None,
            r.program_files is None,
            r.program_files_x86 is None,
            r.local_app_data is None,
    {
        EnvVars {
            java_home: None,
            android_home: None,
            android_sdk_root: None,
            home: None,
            program_w6432: None,
            program_files: None,
            program_files_x86: None,
            local_app_data: None,
        }
    }
}

/// The entries of one directory, as a listing snapshot.
#[derive(Clone, Debug)]
pub struct DirListing {
    /// The directory's path.
    pub dir: String,
    /// The names of its entries.
    pub entries: Vec<String>,
}

/// A snapshot of the parts of the file system a discovery call consults:
/// the listings of the directories it may scan, and the set of paths known
/// to exist. A directory without a listing reads as unreadable or missing,
/// which the heuristics ignore rather than report.
#[derive(Clone, Debug)]
pub struct FsView {
    /// Listings of the directories the call may scan.
    pub listings: Vec<DirListing>,
    /// The paths that exist.
    pub existing: Vec<String>,
}

/// The entries recorded for `dir`: those of the first listing with that
/// path.
pub open spec fn listing_in(ls: Seq<DirListing>, dir: Seq<char>) -> Option<Seq<Seq<char>>>
    decreases ls.len(),
{
    if ls.len() == 0 {
        None
    } else if ls[0].dir@ == dir {
        Some(ls[0].entries.deep_view())
    } else {
        listing_in(ls.drop_first(), dir)
    }
}

impl FsView {
    /// The entries recorded for `dir`, if a listing was taken.
    pub open spec fn spec_listing(self, dir: Seq<char>) -> Option<Seq<Seq<char>>> {
        listing_in(self.listings@, dir)
    }

    /// Whether `path` is recorded as existing.
    pub open spec fn spec_exists(self, path: Seq<char>) -> bool {
        exists|i: int| 0 <= i < self.existing@.len() && self.existing@[i]@ == path
    }

    /// A snapshot with no listings and no existing paths.
    pub fn empty() -> (r: FsView)
        ensures
            r.listings@.len() == 0,
            r.existing@.len() == 0,
    {
        FsView { listings: Vec::new(), existing: Vec::new() }
    }

    /// The position of the listing recorded for `dir`, if any.
    pub fn listing_index(&self, dir: &str) -> (r: Option<usize>)
        ensures
            match r {
                Some(i) => i < self.listings@.len() && self.spec_listing(dir@) == Some(
                    self.listings@[i as int].entries.deep_view(),
                ),
                None => self.spec_listing(dir@) is None,
            },
    {
        let n = self.listings.len();
        let mut i: usize = 0;
        proof {
            assert(self.listings@.skip(0) =~= self.listings@);
        }
        while i < n
            invariant
                n == self.listings@.len(),
                i <= n,
                listing_in(self.listings@.skip(i as int), dir@) == listing_in(
                    self.listings@,
                    dir@,
                ),
            decreases n - i,
        {
            proof {
                assert(self.listings@.skip(i as int)[0] == self.listings@[i as int]);
                assert(self.listings@.skip(i as int).drop_first() =~= self.listings@.skip(
                    i as int + 1,
                ));
            }
            if str_eq(self.listings[i].dir.as_str(), dir) {
                return Some(i);
            }
            i = i + 1;
        }
        None
    }

    /// Whether `path` is recorded as existing.
    pub fn path_exists(&self, path: &str) -> (r: bool)
        ensures
            r == self.spec_exists(path@),
    {
        let n = self.existing.len();
        let mut i: usize = 0;
        while i < n
            invariant
                n == self.existing@.len(),
                i <= n,
                forall|j: int| 0 <= j < i ==> self.existing@[j]@ != path@,
            decreases n - i,
        {
            if str_eq(self.existing[i].as_str(), path) {
                return true;
            }
            i = i + 1;
        }
        false
    }
}

/// An error from a discovery call, mirroring the host's I/O error shape.
#[derive(Clone, Debug)]
pub struct PathError {
    /// The broad kind of failure.
    pub kind: PathErrorKind,
    /// The human-readable description.
    pub message: String,
}

/// The kinds of discovery failure.
#[derive(Clone, Copy, Debug, PartialEq, Eq, Structural)]
pub enum PathErrorKind {
    /// Nothing suitable was found.
    NotFound,
    /// Any other failure.
    Other,
}

/// An entry name matches the pattern `pre*post`: long enough for both ends
/// without overlap, beginning with `pre` and ending with `post`.
pub open spec fn entry_matches(name: Seq<char>, pre: Seq<char>, post: Seq<char>) -> bool {
    name.len() >= pre.len() + post.len() && seq_starts_with(name, pre) && seq_ends_with(name, post)
}

/// The first entry matching `pre*post`, in listing order.
pub open spec fn first_match(entries: Seq<Seq<char>>, pre: Seq<char>, post: Seq<char>) -> Option<
    Seq<char>,
>
    decreases entries.len(),
{
    if entries.len() == 0 {
        None
    } else if entry_matches(entries[0], pre, post) {
        Some(entries[0])
    } else {
        first_match(entries.drop_first(), pre, post)
    }
}

/// What probing `dir` for `pattern` yields. A pattern with a `*` scans the
/// directory's listing for the first entry that fits around the star; a
/// literal pattern only asks whether `dir/pattern` exists. Either way the
/// result is the full path of the found entry.
pub open spec fn if_exists_any_spec(
    platform: Platform,
    fs: FsView,
    dir: Seq<char>,
    pattern: Seq<char>,
) -> Option<Seq<char>> {
    match split_at_first(pattern, '*') {
        None => {
            let p = join_seq(platform, dir, pattern);
            if fs.spec_exists(p) {
                Some(p)
            } else {
                None
            }
        },
        Some((pre, post)) => match fs.spec_listing(dir) {
            None => None,
            Some(entries) => match first_match(entries, pre, post) {
                None => None,
                Some(name) => Some(join_seq(platform, dir, name)),
            },
        },
    }
}

/// Probe `dir` for `pattern`, which may hold one `*` wildcard; the first
/// matching entry wins. Directories that were not listed — unreadable or
/// missing ones — yield nothing rather than an error.
pub fn if_exists_any(platform: Platform, fs: &FsView, dir: &str, pattern: &str) -> (r: Option<
    String,
>)
    ensures
        match if_exists_any_spec(platform, *fs, dir@, pattern@) {
            Some(p) => r matches Some(s) && s@ == p,
            None => r is None,
        },
{
    match find_char(pattern, '*') {
        Some(star) => {
            let n = pattern.unicode_len();
            let pre = pattern.substring_char(0, star);
            let post = pattern.substring_char(star + 1, n);
            proof {
                assert(pre@ =~= pattern@.take(star as int));
                assert(post@ =~= pattern@.skip(star as int + 1));
                assert(split_at_first(pattern@, '*') == Some((pre@, post@)));
            }
            match fs.listing_index(dir) {
                None => None,
                Some(li) => {
                    let entries = &fs.listings[li].entries;
                    let m = entries.len();
                    let pre_len = pre.unicode_len();
                    let post_len = post.unicode_len();
                    let mut j: usize = 0;
                    proof {
                        assert(entries.deep_view().skip(0) =~= entries.deep_view());
                    }
                    while j < m
                        invariant
                            m == entries@.len(),
                            j <= m,
                            pre_len == pre@.len(),
                            post_len == post@.len(),
                            pre_len + post_len < usize::MAX,
                            split_at_first(pattern@, '*') == Some((pre@, post@)),
                            fs.spec_listing(dir@) == Some(entries.deep_view()),
                            first_match(entries.deep_view().skip(j as int), pre@, post@)
                                == first_match(entries.deep_view(), pre@, post@),
                        decreases m - j,
                    {
                        proof {
                            assert(entries.deep_view().skip(j as int)[0] == entries@[j as int]@);
                            assert(entries.deep_view().skip(j as int).drop_first()
                                =~= entries.deep_view().skip(j as int + 1));
                        }
                        let name = &entries[j];
                        if name.as_str().unicode_len() >= pre_len + post_len && starts_with_str(
                            name.as_str(),
                            pre,
                        ) && ends_with_str(name.as_str(), post) {
                            proof {
                                assert(entry_matches(name@, pre@, post@));
                                assert(first_match(entries.deep_view(), pre@, post@) == Some(
                                    name@,
                                ));
                            }
                            return Some(join(platform, dir, name.as_str()));
                        }
                        j = j + 1;
                    }
                    None
                },
            }
        },
        None => {
            let p = join(platform, dir, pattern);
            if fs.path_exists(p.as_str()) {
                Some(p)
            } else {
                None
            }
        },
    }
}

/// The path, unchanged, when it is recorded as existing.
pub open spec fn if_exists_spec(fs: FsView, path: Seq<char>) -> Option<Seq<char>> {
    if fs.spec_exists(path) {
        Some(path)
    } else {
        None
    }
}

/// The given path when it exists, nothing otherwise.
pub fn if_exists(fs: &FsView, path: String) -> (r: Option<String>)
    ensures
        match if_exists_spec(*fs, path@) {
            Some(p) => r matches Some(s) && s@ == p,
            None => r is None,
        },
{
    if fs.path_exists(path.as_str()) {
        Some(path)
    } else {
        None
    }
}

/// The per-architecture program directories and the local application-data
/// directory, as the platform's environment names them.
#[derive(Clone, Debug)]
pub struct WinPaths {
    pub program_files: String,
    pub program_files_x86: String,
    pub local_app_data: String,
}

/// The environment names every directory [`WinPaths::get`] reads.
pub open spec fn winpaths_available(env: EnvVars) -> bool {
    (env.program_w6432 is Some || env.program_files is Some) && (env.program_files_x86 is Some
        || env.program_files is Some) && env.local_app_data is Some
}

/// The 64-bit program directory: `ProgramW6432`, with `ProgramFiles` as
/// the fallback.
pub open spec fn spec_program_files(env: EnvVars) -> Seq<char> {
    match env.program_w6432 {
        Some(p) => p@,
        None => match env.program_files {
            Some(p) => p@,
            None => Seq::empty(),
        },
    }
}

/// The 32-bit program directory: `ProgramFiles(x86)`, with `ProgramFiles`
/// as the fallback.
pub open spec fn spec_program_files_x86(env: EnvVars) -> Seq<char> {
    match env.program_files_x86 {
        Some(p) => p@,
        None => match env.program_files {
            Some(p) => p@,
            None => Seq::empty(),
        },
    }
}

impl WinPaths {
    /// Read the three well-known directories from the environment. The
    /// caller must have checked they are named there; a host with them
    /// absent cannot run the discovery at all.
    pub fn get(env: &EnvVars) -> (r: WinPaths)
        requires
            winpaths_available(*env),
        ensures
            r.program_files@ == spec_program_files(*env),
            r.program_files_x86@ == spec_program_files_x86(*env),
            r.local_app_data@ == env.local_app_data->0@,
    {
        let program_files = match &env.program_w6432 {
            Some(p) => p.clone(),
            None => match &env.program_files {
                Some(p) => p.clone(),
                None => String::new(),
            },
        };
        let program_files_x86 = match &env.program_files_x86 {
            Some(p) => p.clone(),
            None => match &env.program_files {
                Some(p) => p.clone(),
                None => String::new(),
            },
        };
        let local_app_data = match &env.local_app_data {
            Some(p) => p.clone(),
            None => String::new(),
        };
        WinPaths { program_files, program_files_x86, local_app_data }
    }
}

/// The host's pointer width is 64 bits on these architectures.
pub open spec fn arch_is_64_bit(arch: Arch) -> bool {
    arch == Arch::X86_64 || arch == Arch::AArch64
}

/// The wildcard probed under `/usr/lib/jvm` for each architecture's JDK
/// package, in the order tried; soft-float ARM is the fallback after
/// hard-float.
pub open spec fn unix_java_home_spec(platform: Platform, arch: Arch, fs: FsView) -> Option<
    Seq<char>,
> {
    match arch {
        Arch::X86_64 => if_exists_any_spec(platform, fs, "/usr/lib/jvm"@, "java-*-openjdk-amd64"@),
        Arch::X86 => if_exists_any_spec(platform, fs, "/usr/lib/jvm"@, "java-*-openjdk-i386"@),
        Arch::AArch64 => if_exists_any_spec(platform, fs, "/usr/lib/jvm"@, "java-*-openjdk-arm64"@),
        Arch::ARM => match if_exists_any_spec(
            platform,
            fs,
            "/usr/lib/jvm"@,
            "java-*-openjdk-armhf"@,
        ) {
            Some(p) => Some(p),
            None => if_exists_any_spec(platform, fs, "/usr/lib/jvm"@, "java-*-openjdk-armel"@),
        },
        _ => None,
    }
}

/// The installation directories probed on the platform with
/// per-architecture program directories, in precedence order.
pub open spec fn windows_java_home_spec(
    platform: Platform,
    arch: Arch,
    env: EnvVars,
    fs: FsView,
) -> Option<Seq<char>> {
    let pf = spec_program_files(env);
    let pf_native = if arch_is_64_bit(arch) {
        spec_program_files(env)
    } else {
        spec_program_files_x86(env)
    };
    match if_exists_any_spec(
        platform,
        fs,
        join_seq(platform, pf_native, "AdoptOpenJDK"@),
        "jdk-*-hotspot"@,
    ) {
        Some(p) => Some(p),
        None => match if_exists_any_spec(
            platform,
            fs,
            join_seq(platform, pf_native, "Java"@),
            "jdk*"@,
        ) {
            Some(p) => Some(p),
            None => match if_exists_any_spec(
                platform,
                fs,
                join_seq(platform, pf, "Android\\jdk"@),
                "microsoft_disk_openjdk_*"@,
            ) {
                Some(p) => Some(p),
                None => if_exists_spec(
                    fs,
                    join_seq(platform, pf, "Android\\Android Studio\\jre"@),
                ),
            },
        },
    }
}

/// Where the runtime installation is: `JAVA_HOME` when set, else the
/// platform's well-known installation locations, first match wins.
pub open spec fn java_home_spec(platform: Platform, arch: Arch, env: EnvVars, fs: FsView) -> Option<
    Seq<char>,
> {
    match env.java_home {
        Some(p) => Some(p@),
        None => if platform is Windows {
            windows_java_home_spec(platform, arch, env, fs)
        } else {
            unix_java_home_spec(platform, arch, fs)
        },
    }
}

/// Return `JAVA_HOME` or a similar path: the environment variable when
/// set, else the first of the platform's well-known JDK installation
/// locations that exists. `arch` is the architecture the host binary was
/// built for; it picks the program directory whose installations the host
/// can load.
pub fn java_home(platform: Platform, arch: Arch, env: &EnvVars, fs: &FsView) -> (r: Result<
    String,
    PathError,
>)
    requires
        platform is Windows && env.java_home is None ==> winpaths_available(*env),
    ensures
        match java_home_spec(platform, arch, *env, *fs) {
            Some(p) => r matches Ok(s) && s@ == p,
            None => r matches Err(e) && e.kind == PathErrorKind::NotFound && e.message@
                == "JAVA_HOME not set and no Java installation could be found"@,
        },
{
    let found: Option<String> = match &env.java_home {
        Some(p) => Some(p.clone()),
        None => {
            if let Platform::Windows = platform {
                let wp = WinPaths::get(env);
                let pf_native = if arch_is_64_bit_exec(arch) {
                    wp.program_files.clone()
                } else {
                    wp.program_files_x86.clone()
                };
                let mut r = if_exists_any(
                    platform,
                    fs,
                    join(platform, pf_native.as_str(), "AdoptOpenJDK").as_str(),
                    "jdk-*-hotspot",
                );
                if r.is_none() {
                    r = if_exists_any(
                        platform,
                        fs,
                        join(platform, pf_native.as_str(), "Java").as_str(),
                        "jdk*",
                    );
                }
                if r.is_none() {
                    r = if_exists_any(
                        platform,
                        fs,
                        join(platform, wp.program_files.as_str(), "Android\\jdk").as_str(),
                        "microsoft_disk_openjdk_*",
                    );
                }
                if r.is_none() {
                    r = if_exists(
                        fs,
                        join(platform, wp.program_files.as_str(), "Android\\Android Studio\\jre"),
                    );
                }
                r
            } else {
                match arch {
                    Arch::X86_64 => if_exists_any(
                        platform,
                        fs,
                        "/usr/lib/jvm",
                        "java-*-openjdk-amd64",
                    ),
                    Arch::X86 => if_exists_any(platform, fs, "/usr/lib/jvm", "java-*-openjdk-i386"),
                    Arch::AArch64 => if_exists_any(
                        platform,
                        fs,
                        "/usr/lib/jvm",
                        "java-*-openjdk-arm64",
                    ),
                    Arch::ARM => {
                        let mut r = if_exists_any(
                            platform,
                            fs,
                            "/usr/lib/jvm",
                            "java-*-openjdk-armhf",
                        );
                        if r.is_none() {
                            r = if_exists_any(platform, fs, "/usr/lib/jvm", "java-*-openjdk-armel");
                        }
                        r
                    },
                    _ => None,
                }
            }
        },
    };
    match found {
        Some(p) => Ok(p),
        None => Err(
            PathError {
                kind: PathErrorKind::NotFound,
                message: String::from_str(
                    "JAVA_HOME not set and no Java installation could be found",
                ),
            },
        ),
    }
}

/// Whether the host's pointer width is 64 bits on this architecture.
fn arch_is_64_bit_exec(arch: Arch) -> (r: bool)
    ensures
        r == arch_is_64_bit(arch),
{
    match arch {
        Arch::X86_64 => true,
        Arch::AArch64 => true,
        _ => false,
    }
}

/// Where the Android SDK is: `ANDROID_HOME`, then `ANDROID_SDK_ROOT`, then
/// the platform's well-known installation locations.
pub open spec fn android_sdk_root_spec(platform: Platform, env: EnvVars, fs: FsView) -> Option<
    Seq<char>,
> {
    match env.android_home {
        Some(p) => Some(p@),
        None => match env.android_sdk_root {
            Some(p) => Some(p@),
            None => if platform is Windows {
                match if_exists_spec(
                    fs,
                    join_seq(platform, spec_program_files_x86(env), "Android\\android-sdk"@),
                ) {
                    Some(p) => Some(p),
                    None => if_exists_spec(
                        fs,
                        join_seq(platform, env.local_app_data->0@, "Android\\Sdk"@),
                    ),
                }
            } else {
                if_exists_spec(fs, join_seq(platform, env.home->0@, "android-sdk-tmp"@))
            },
        },
    }
}

/// Return `ANDROID_SDK_ROOT` or a similar path: the well-known environment
/// variables in precedence order, else the platform's usual installation
/// locations.
pub fn android_sdk_root(platform: Platform, env: &EnvVars, fs: &FsView) -> (r: Result<
    String,
    PathError,
>)
    requires
        platform is Windows && env.android_home is None && env.android_sdk_root is None
            ==> winpaths_available(*env),
        !(platform is Windows) && env.android_home is None && env.android_sdk_root is None
            ==> env.home is Some,
    ensures
        match android_sdk_root_spec(platform, *env, *fs) {
            Some(p) => r matches Ok(s) && s@ == p,
            None => r matches Err(e) && e.kind == PathErrorKind::Other && e.message@
                == "ANDROID_HOME nor ANDROID_SDK_ROOT set and no Android SDK installation could be found"@,
        },
{
    let found: Option<String> = match &env.android_home {
        Some(p) => Some(p.clone()),
        None => match &env.android_sdk_root {
            Some(p) => Some(p.clone()),
            None => {
                if let Platform::Windows = platform {
                    let wp = WinPaths::get(env);
                    let mut r = if_exists(
                        fs,
                        join(platform, wp.program_files_x86.as_str(), "Android\\android-sdk"),
                    );
                    if r.is_none() {
                        r = if_exists(
                            fs,
                            join(platform, wp.local_app_data.as_str(), "Android\\Sdk"),
                        );
                    }
                    r
                } else {
                    let home = match &env.home {
                        Some(h) => h.clone(),
                        None => String::new(),
                    };
                    if_exists(fs, join(platform, home.as_str(), "android-sdk-tmp"))
                }
            },
        },
    };
    match found {
        Some(p) => Ok(p),
        None => Err(
            PathError {
                kind: PathErrorKind::Other,
                message: String::from_str(
                    "ANDROID_HOME nor ANDROID_SDK_ROOT set and no Android SDK installation could be found",
                ),
            },
        ),
    }
}

/// The message reported when no numbered platform directory is found under
/// the SDK root.
pub open spec fn no_android_platform_seq(root: Seq<char>) -> Seq<char> {
    "No android-NN platform found in Android SDK root: "@ + root + "/platforms/android-*"@
}

/// Return the SDK's `platforms/android-NN` directory or a similar path:
/// the first numbered platform directory under the SDK root.
pub fn platforms_android_nn(platform: Platform, android_sdk_root: &str, fs: &FsView) -> (r: Result<
    String,
    PathError,
>)
    ensures
        match if_exists_any_spec(
            platform,
            *fs,
            join_seq(platform, android_sdk_root@, "platforms"@),
            "android-*"@,
        ) {
            Some(p) => r matches Ok(s) && s@ == p,
            None => r matches Err(e) && e.kind == PathErrorKind::Other && e.message@
                == no_android_platform_seq(android_sdk_root@),
        },
{
    match if_exists_any(
        platform,
        fs,
        join(platform, android_sdk_root, "platforms").as_str(),
        "android-*",
    ) {
        Some(p) => Ok(p),
        None => {
            let mut m = String::from_str("No android-NN platform found in Android SDK root: ");
            m.append(android_sdk_root);
            m.append("/platforms/android-*");
            proof {
                assert(m@ =~= no_android_platform_seq(android_sdk_root@));
            }
            Err(PathError { kind: PathErrorKind::Other, message: m })
        },
    }
}

/// The platform-specific file name of the runtime's shared library.
pub open spec fn libjvm_name_seq(platform: Platform) -> Seq<char> {
    match platform {
        Platform::Windows => "jvm.dll"@,
        Platform::MacOs => "libjvm.dylib"@,
        Platform::OtherUnix => "libjvm.so"@,
    }
}

/// Return the platform-specific file name of the runtime's shared library.
pub fn libjvm_name(platform: Platform) -> (r: &'static str)
    ensures
        r@ == libjvm_name_seq(platform),
{
    match platform {
        Platform::Windows => "jvm.dll",
        Platform::MacOs => "libjvm.dylib",
        Platform::OtherUnix => "libjvm.so",
    }
}

/// The relative directories probed under the installation for the shared
/// library, in precedence order: the architecture-stamped package layouts,
/// the older layout with the library under `jre/bin`, the newer one with
/// it under `bin`, and the `lib/server` layout where that is the rule.
pub open spec fn libjvm_candidates_seq(platform: Platform, arch: Arch) -> Seq<Seq<char>> {
    (match arch {
        Arch::X86_64 => seq!["jre/lib/amd64/client"@, "jre/lib/amd64/server"@],
        Arch::X86 => seq!["jre/lib/i386/client"@, "jre/lib/i386/server"@],
        Arch::AArch64 => seq!["jre/lib/aarch64/client"@, "jre/lib/aarch64/server"@],
        Arch::ARM => seq!["jre/lib/arm/client"@, "jre/lib/arm/server"@],
        _ => Seq::empty(),
    }) + seq!["jre/bin/client"@, "jre/bin/server"@, "bin/client"@, "bin/server"@] + (
    if platform is MacOs {
        seq!["lib/server"@]
    } else {
        Seq::empty()
    })
}

/// The first candidate directory that holds the shared library.
pub open spec fn first_libjvm_dir(
    platform: Platform,
    fs: FsView,
    java_home: Seq<char>,
    cands: Seq<Seq<char>>,
    lib: Seq<char>,
) -> Option<Seq<char>>
    decreases cands.len(),
{
    if cands.len() == 0 {
        None
    } else {
        let d = join_seq(platform, java_home, cands[0]);
        if fs.spec_exists(join_seq(platform, d, lib)) {
            Some(d)
        } else {
            first_libjvm_dir(platform, fs, java_home, cands.drop_first(), lib)
        }
    }
}

/// Where [`libjvm_dir`] looks: the candidates for this platform and
/// architecture, under the given installation.
pub open spec fn libjvm_dir_spec(
    platform: Platform,
    arch: Arch,
    fs: FsView,
    java_home: Seq<char>,
) -> Option<Seq<char>> {
    first_libjvm_dir(
        platform,
        fs,
        java_home,
        libjvm_candidates_seq(platform, arch),
        libjvm_name_seq(platform),
    )
}

/// The message reported when no candidate directory holds the library.
pub open spec fn libjvm_not_found_seq(platform: Platform, java_home: Seq<char>) -> Seq<char> {
    "Could not find "@ + libjvm_name_seq(platform)
        + " in expected locations of JAVA_HOME: "@ + java_home + "/jre/{bin,lib/amd64}/{client,server}/"@
}

/// The candidate subdirectories for this platform and architecture, in
/// precedence order.
fn libjvm_candidates(platform: Platform, arch: Arch) -> (r: Vec<&'static str>)
    ensures
        r.deep_view() == libjvm_candidates_seq(platform, arch),
{
    let mut cands: Vec<&'static str> = Vec::new();
    match arch {
        Arch::X86_64 => {
            cands.push("jre/lib/amd64/client");
            cands.push("jre/lib/amd64/server");
        },
        Arch::X86 => {
            cands.push("jre/lib/i386/client");
            cands.push("jre/lib/i386/server");
        },
        Arch::AArch64 => {
            cands.push("jre/lib/aarch64/client");
            cands.push("jre/lib/aarch64/server");
        },
        Arch::ARM => {
            cands.push("jre/lib/arm/client");
            cands.push("jre/lib/arm/server");
        },
        _ => {},
    }
    cands.push("jre/bin/client");
    cands.push("jre/bin/server");
    cands.push("bin/client");
    cands.push("bin/server");
    if let Platform::MacOs = platform {
        cands.push("lib/server");
    }
    proof {
        assert(cands.deep_view() =~= libjvm_candidates_seq(platform, arch));
    }
    cands
}

/// Return the directory under the installation that holds the runtime's
/// shared library: the first of a short ordered list of candidate
/// subdirectories that holds the platform's library file.
pub fn libjvm_dir(platform: Platform, arch: Arch, java_home: &str, fs: &FsView) -> (r: Result<
    String,
    PathError,
>)
    ensures
        match libjvm_dir_spec(platform, arch, *fs, java_home@) {
            Some(p) => r matches Ok(s) && s@ == p,
            None => r matches Err(e) && e.kind == PathErrorKind::NotFound && e.message@
                == libjvm_not_found_seq(platform, java_home@),
        },
{
    let lib = libjvm_name(platform);
    let cands = libjvm_candidates(platform, arch);
    let n = cands.len();
    let mut i: usize = 0;
    proof {
        assert(cands.deep_view().skip(0) =~= cands.deep_view());
    }
    while i < n
        invariant
            n == cands@.len(),
            i <= n,
            lib@ == libjvm_name_seq(platform),
            first_libjvm_dir(platform, *fs, java_home@, cands.deep_view().skip(i as int), lib@)
                == libjvm_dir_spec(platform, arch, *fs, java_home@),
        decreases n - i,
    {
        proof {
            assert(cands.deep_view().skip(i as int)[0] == cands@[i as int]@);
            assert(cands.deep_view().skip(i as int).drop_first() =~= cands.deep_view().skip(
                i as int + 1,
            ));
        }
        let d = join(platform, java_home, cands[i]);
        let p = join(platform, d.as_str(), lib);
        if fs.path_exists(p.as_str()) {
            return Ok(d);
        }
        i = i + 1;
    }
    let mut m = String::from_str("Could not find ");
    m.append(lib);
    m.append(" in expected locations of JAVA_HOME: ");
    m.append(java_home);
    m.append("/jre/{bin,lib/amd64}/{client,server}/");
    proof {
        assert(m@ =~= libjvm_not_found_seq(platform, java_home@));
    }
    Err(PathError { kind: PathErrorKind::NotFound, message: m })
}

/// The directories [`java_home`] may scan, in the order it consults them.
/// The caller lists exactly these into the [`FsView`] it hands in.
pub open spec fn java_home_probe_dirs_spec(platform: Platform, arch: Arch, env: EnvVars) -> Seq<
    Seq<char>,
> {
    if platform is Windows {
        let pf = spec_program_files(env);
        let pf_native = if arch_is_64_bit(arch) {
            spec_program_files(env)
        } else {
            spec_program_files_x86(env)
        };
        seq![
            join_seq(platform, pf_native, "AdoptOpenJDK"@),
            join_seq(platform, pf_native, "Java"@),
            join_seq(platform, pf, "Android\\jdk"@),
        ]
    } else {
        seq!["/usr/lib/jvm"@]
    }
}

/// The directories [`java_home`] may scan, in the order it consults them.
pub fn java_home_probe_dirs(platform: Platform, arch: Arch, env: &EnvVars) -> (r: Vec<String>)
    requires
        platform is Windows ==> winpaths_available(*env),
    ensures
        r.deep_view() == java_home_probe_dirs_spec(platform, arch, *env),
{
    let mut r: Vec<String> = Vec::new();
    if let Platform::Windows = platform {
        let wp = WinPaths::get(env);
        let pf_native = if arch_is_64_bit_exec(arch) {
            wp.program_files.clone()
        } else {
            wp.program_files_x86.clone()
        };
        r.push(join(platform, pf_native.as_str(), "AdoptOpenJDK"));
        r.push(join(platform, pf_native.as_str(), "Java"));
        r.push(join(platform, wp.program_files.as_str(), "Android\\jdk"));
    } else {
        r.push(String::from_str("/usr/lib/jvm"));
    }
    proof {
        assert(r.deep_view() =~= java_home_probe_dirs_spec(platform, arch, *env));
    }
    r
}

/// The paths whose existence [`java_home`] may ask about.
pub open spec fn java_home_probe_paths_spec(platform: Platform, env: EnvVars) -> Seq<Seq<char>> {
    if platform is Windows {
        seq![join_seq(platform, spec_program_files(env), "Android\\Android Studio\\jre"@)]
    } else {
        Seq::empty()
    }
}

/// The paths whose existence [`java_home`] may ask about.
pub fn java_home_probe_paths(platform: Platform, env: &EnvVars) -> (r: Vec<String>)
    requires
        platform is Windows ==> winpaths_available(*env),
    ensures
        r.deep_view() == java_home_probe_paths_spec(platform, *env),
{
    let mut r: Vec<String> = Vec::new();
    if let Platform::Windows = platform {
        let wp = WinPaths::get(env);
        r.push(join(platform, wp.program_files.as_str(), "Android\\Android Studio\\jre"));
    }
    proof {
        assert(r.deep_view() =~= java_home_probe_paths_spec(platform, *env));
    }
    r
}

/// The paths whose existence [`android_sdk_root`] may ask about; empty
/// when the environment it would read is not there.
pub open spec fn android_sdk_probe_paths_spec(platform: Platform, env: EnvVars) -> Seq<Seq<char>> {
    if platform is Windows {
        if winpaths_available(env) {
            seq![
                join_seq(platform, spec_program_files_x86(env), "Android\\android-sdk"@),
                join_seq(platform, env.local_app_data->0@, "Android\\Sdk"@),
            ]
        } else {
            Seq::empty()
        }
    } else {
        match env.home {
            Some(h) => seq![join_seq(platform, h@, "android-sdk-tmp"@)],
            None => Seq::empty(),
        }
    }
}

/// The paths whose existence [`android_sdk_root`] may ask about.
pub fn android_sdk_probe_paths(platform: Platform, env: &EnvVars) -> (r: Vec<String>)
    ensures
        r.deep_view() == android_sdk_probe_paths_spec(platform, *env),
{
    let mut r: Vec<String> = Vec::new();
    if let Platform::Windows = platform {
        let have = (env.program_w6432.is_some() || env.program_files.is_some()) && (
        env.program_files_x86.is_some() || env.program_files.is_some())
            && env.local_app_data.is_some();
        if have {
            let wp = WinPaths::get(env);
            r.push(join(platform, wp.program_files_x86.as_str(), "Android\\android-sdk"));
            r.push(join(platform, wp.local_app_data.as_str(), "Android\\Sdk"));
        }
    } else {
        if let Some(h) = &env.home {
            r.push(join(platform, h.as_str(), "android-sdk-tmp"));
        }
    }
    proof {
        assert(r.deep_view() =~= android_sdk_probe_paths_spec(platform, *env));
    }
    r
}

/// The paths whose existence [`libjvm_dir`] asks about: each candidate
/// directory with the platform's library file name appended.
pub open spec fn libjvm_probe_paths_spec(
    platform: Platform,
    arch: Arch,
    java_home: Seq<char>,
) -> Seq<Seq<char>> {
    libjvm_candidates_seq(platform, arch).map_values(
        |c: Seq<char>| join_seq(platform, join_seq(platform, java_home, c), libjvm_name_seq(platform)),
    )
}

/// The paths whose existence [`libjvm_dir`] asks about.
pub fn libjvm_probe_paths(platform: Platform, arch: Arch, java_home: &str) -> (r: Vec<String>)
    ensures
        r.deep_view() == libjvm_probe_paths_spec(platform, arch, java_home@),
{
    let lib = libjvm_name(platform);
    let cands = libjvm_candidates(platform, arch);
    let n = cands.len();
    let mut r: Vec<String> = Vec::new();
    let mut i: usize = 0;
    while i < n
        invariant
            n == cands@.len(),
            i <= n,
            i == r@.len(),
            lib@ == libjvm_name_seq(platform),
            cands.deep_view() == libjvm_candidates_seq(platform, arch),
            forall|j: int| 0 <= j < i ==> r@[j]@ == libjvm_probe_paths_spec(
                platform,
                arch,
                java_home@,
            )[j],
        decreases n - i,
    {
        let d = join(platform, java_home, cands[i]);
        r.push(join(platform, d.as_str(), lib));
        i = i + 1;
    }
    proof {
        assert forall|j: int| 0 <= j < n implies r.deep_view()[j] == libjvm_probe_paths_spec(
            platform,
            arch,
            java_home@,
        )[j] by {
            assert(r.deep_view()[j] == r@[j]@);
        }
        assert(r.deep_view() =~= libjvm_probe_paths_spec(platform, arch, java_home@));
    }
    r
}

} // verus!
