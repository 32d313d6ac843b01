//! Path discovery over snapshots of the environment and the file system.

use jerk::arch::Arch;
use jerk::paths::{
    android_sdk_root, if_exists, if_exists_any, java_home, join, libjvm_dir, libjvm_name,
    platforms_android_nn, DirListing, EnvVars, FsView, PathErrorKind, Platform, WinPaths,
};
use jerk::search::find_java_home;

fn unix() -> Platform {
    Platform::OtherUnix
}

#[test]
fn join_uses_the_platform_separator() {
    assert_eq!(join(Platform::OtherUnix, "/usr", "lib"), "/usr/lib");
    assert_eq!(join(Platform::Windows, "C:\\x", "y"), "C:\\x\\y");
}

#[test]
fn java_home_prefers_the_environment_variable() {
    let mut env = EnvVars::empty();
    env.java_home = Some(String::from("/opt/jdk"));
    let fs = FsView::empty();
    assert_eq!(java_home(unix(), Arch::X86_64, &env, &fs).unwrap(), "/opt/jdk");
}

#[test]
fn java_home_scans_the_package_directory() {
    let env = EnvVars::empty();
    let fs = FsView {
        listings: vec![DirListing {
            dir: String::from("/usr/lib/jvm"),
            entries: vec![
                String::from("openjdk-17-doc"),
                String::from("java-17-openjdk-amd64"),
                String::from("java-11-openjdk-amd64"),
            ],
        }],
        existing: vec![],
    };
    // The first matching entry wins, in listing order.
    assert_eq!(
        java_home(unix(), Arch::X86_64, &env, &fs).unwrap(),
        "/usr/lib/jvm/java-17-openjdk-amd64"
    );
    // Another architecture's pattern does not match these entries.
    let err = java_home(unix(), Arch::X86, &env, &fs).unwrap_err();
    assert_eq!(err.kind, PathErrorKind::NotFound);
    assert_eq!(
        err.message,
        "JAVA_HOME not set and no Java installation could be found"
    );
}

#[test]
fn arm_falls_back_from_hard_float_to_soft_float() {
    let env = EnvVars::empty();
    let fs = FsView {
        listings: vec![DirListing {
            dir: String::from("/usr/lib/jvm"),
            entries: vec![String::from("java-11-openjdk-armel")],
        }],
        existing: vec![],
    };
    assert_eq!(
        java_home(unix(), Arch::ARM, &env, &fs).unwrap(),
        "/usr/lib/jvm/java-11-openjdk-armel"
    );
}

#[test]
fn wildcard_probing_matches_around_the_star() {
    let fs = FsView {
        listings: vec![DirListing {
            dir: String::from("/d"),
            entries: vec![String::from("jdk"), String::from("jdk-13-hotspot")],
        }],
        existing: vec![],
    };
    // "jdk-*-hotspot" must not match the bare "jdk" entry even though it
    // starts and ends like the pattern's fixed parts.
    assert_eq!(
        if_exists_any(unix(), &fs, "/d", "jdk-*-hotspot"),
        Some(String::from("/d/jdk-13-hotspot"))
    );
    // A literal pattern is an existence probe.
    assert_eq!(if_exists_any(unix(), &fs, "/d", "jdk"), None);
    let fs = FsView {
        listings: vec![],
        existing: vec![String::from("/d/jdk")],
    };
    assert_eq!(if_exists_any(unix(), &fs, "/d", "jdk"), Some(String::from("/d/jdk")));
}

#[test]
fn existence_probe_returns_the_path_itself() {
    let fs = FsView {
        listings: vec![],
        existing: vec![String::from("/a/b")],
    };
    assert_eq!(if_exists(&fs, String::from("/a/b")), Some(String::from("/a/b")));
    assert_eq!(if_exists(&fs, String::from("/a/c")), None);
}

#[test]
fn library_names_are_platform_specific() {
    assert_eq!(libjvm_name(Platform::Windows), "jvm.dll");
    assert_eq!(libjvm_name(Platform::MacOs), "libjvm.dylib");
    assert_eq!(libjvm_name(Platform::OtherUnix), "libjvm.so");
}

#[test]
fn libjvm_dir_takes_the_first_candidate_that_holds_the_library() {
    let fs = FsView {
        listings: vec![],
        existing: vec![
            String::from("/jdk/jre/lib/amd64/server/libjvm.so"),
            String::from("/jdk/bin/server/libjvm.so"),
        ],
    };
    // The architecture-stamped client/server pair is probed first.
    assert_eq!(
        libjvm_dir(unix(), Arch::X86_64, "/jdk", &fs).unwrap(),
        "/jdk/jre/lib/amd64/server"
    );
    // Without the stamped layout, the newer bin layout wins.
    let fs = FsView {
        listings: vec![],
        existing: vec![String::from("/jdk/bin/server/libjvm.so")],
    };
    assert_eq!(libjvm_dir(unix(), Arch::X86_64, "/jdk", &fs).unwrap(), "/jdk/bin/server");
}

#[test]
fn libjvm_dir_failure_names_the_expected_locations() {
    let err = libjvm_dir(unix(), Arch::X86_64, "/jdk", &FsView::empty()).unwrap_err();
    assert_eq!(err.kind, PathErrorKind::NotFound);
    assert_eq!(
        err.message,
        "Could not find libjvm.so in expected locations of JAVA_HOME: /jdk/jre/{bin,lib/amd64}/{client,server}/"
    );
}

#[test]
fn android_sdk_root_prefers_the_environment() {
    let mut env = EnvVars::empty();
    env.android_home = Some(String::from("/sdk"));
    env.home = Some(String::from("/home/u"));
    assert_eq!(android_sdk_root(unix(), &env, &FsView::empty()).unwrap(), "/sdk");

    let mut env = EnvVars::empty();
    env.home = Some(String::from("/home/u"));
    let fs = FsView {
        listings: vec![],
        existing: vec![String::from("/home/u/android-sdk-tmp")],
    };
    assert_eq!(android_sdk_root(unix(), &env, &fs).unwrap(), "/home/u/android-sdk-tmp");

    let err = android_sdk_root(unix(), &env, &FsView::empty()).unwrap_err();
    assert_eq!(err.kind, PathErrorKind::Other);
    assert_eq!(
        err.message,
        "ANDROID_HOME nor ANDROID_SDK_ROOT set and no Android SDK installation could be found"
    );
}

#[test]
fn numbered_platform_directories_are_found_under_the_root() {
    let fs = FsView {
        listings: vec![DirListing {
            dir: String::from("/sdk/platforms"),
            entries: vec![String::from("android-29")],
        }],
        existing: vec![],
    };
    assert_eq!(
        platforms_android_nn(unix(), "/sdk", &fs).unwrap(),
        "/sdk/platforms/android-29"
    );
    let err = platforms_android_nn(unix(), "/sdk", &FsView::empty()).unwrap_err();
    assert_eq!(
        err.message,
        "No android-NN platform found in Android SDK root: /sdk/platforms/android-*"
    );
}

#[test]
fn winpaths_fall_back_to_the_shared_program_directory() {
    let mut env = EnvVars::empty();
    env.program_files = Some(String::from("C:\\PF"));
    env.local_app_data = Some(String::from("C:\\LAD"));
    let wp = WinPaths::get(&env);
    assert_eq!(wp.program_files, "C:\\PF");
    assert_eq!(wp.program_files_x86, "C:\\PF");
    assert_eq!(wp.local_app_data, "C:\\LAD");

    env.program_w6432 = Some(String::from("C:\\PW"));
    env.program_files_x86 = Some(String::from("C:\\PF86"));
    let wp = WinPaths::get(&env);
    assert_eq!(wp.program_files, "C:\\PW");
    assert_eq!(wp.program_files_x86, "C:\\PF86");
}

#[test]
fn windows_java_home_probes_the_known_installations() {
    let mut env = EnvVars::empty();
    env.program_w6432 = Some(String::from("C:\\PW"));
    env.program_files = Some(String::from("C:\\PF"));
    env.program_files_x86 = Some(String::from("C:\\PF86"));
    env.local_app_data = Some(String::from("C:\\LAD"));
    let fs = FsView {
        listings: vec![DirListing {
            dir: String::from("C:\\PW\\AdoptOpenJDK"),
            entries: vec![String::from("jdk-13.0.1-hotspot")],
        }],
        existing: vec![],
    };
    assert_eq!(
        java_home(Platform::Windows, Arch::X86_64, &env, &fs).unwrap(),
        "C:\\PW\\AdoptOpenJDK\\jdk-13.0.1-hotspot"
    );
    // A 32-bit host looks in the 32-bit program directory instead.
    assert!(java_home(Platform::Windows, Arch::X86, &env, &fs).is_err());
}

#[test]
fn program_files_depends_on_the_architecture() {
    let mut env = EnvVars::empty();
    env.program_w6432 = Some(String::from("C:\\PW"));
    env.program_files = Some(String::from("C:\\PF"));
    env.program_files_x86 = Some(String::from("C:\\PF86"));
    assert_eq!(
        Arch::X86_64.program_files(Platform::Windows, &env),
        Some(String::from("C:\\PW"))
    );
    assert_eq!(
        Arch::X86.program_files(Platform::Windows, &env),
        Some(String::from("C:\\PF86"))
    );
    assert_eq!(Arch::AArch64.program_files(Platform::Windows, &env), None);
    assert_eq!(Arch::X86_64.program_files(Platform::OtherUnix, &env), None);
}

#[test]
fn the_light_search_does_not_touch_the_file_system() {
    let mut env = EnvVars::empty();
    env.java_home = Some(String::from("/opt/jdk"));
    assert_eq!(find_java_home(unix(), &env), Some(String::from("/opt/jdk")));

    let mut env = EnvVars::empty();
    env.program_files = Some(String::from("C:\\PF"));
    assert_eq!(
        find_java_home(Platform::Windows, &env),
        Some(String::from("C:\\PF\\Android\\Android Studio\\jre"))
    );
    assert_eq!(find_java_home(unix(), &EnvVars::empty()), None);
}
