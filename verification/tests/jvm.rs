//! The symbol table, option preparation, and load-failure diagnostics.

use jerk::jni::{JniError, JNI_EEXIST, JNI_OK, JNI_VERSION_1_6};
use jerk::jvm::{
    create_vm_symbol, get_created_vms_symbol, get_default_args_symbol, prepare_vm_options,
    specialize_load_failure, JvmApi, Library, VmInitArgs, ERROR_BAD_EXE_FORMAT,
};

#[test]
fn symbols_are_null_terminated() {
    assert_eq!(create_vm_symbol(), "JNI_CreateJavaVM\0");
    assert_eq!(get_created_vms_symbol(), "JNI_GetCreatedJavaVMs\0");
    assert_eq!(get_default_args_symbol(), "JNI_GetDefaultJavaVMInitArgs\0");
}

#[test]
fn a_fully_resolved_table_is_built() {
    let api = JvmApi::load(1, 2, 3).unwrap();
    assert_eq!(api.create_vm, 1);
    assert_eq!(api.get_created_vms, 2);
    assert_eq!(api.get_default_args, 3);
    let lib = Library::new(api);
    assert_eq!(lib.jvm, api);
}

#[test]
fn a_missing_symbol_is_named_and_fatal() {
    let err = JvmApi::load(0, 2, 3).unwrap_err();
    assert_eq!(
        err.describe(),
        "Symbol \"JNI_CreateJavaVM\" missing from JVM library"
    );
    let err = JvmApi::load(1, 0, 3).unwrap_err();
    assert_eq!(
        err.describe(),
        "Symbol \"JNI_GetCreatedJavaVMs\" missing from JVM library"
    );
    let err = JvmApi::load(1, 2, 0).unwrap_err();
    assert_eq!(
        err.describe(),
        "Symbol \"JNI_GetDefaultJavaVMInitArgs\" missing from JVM library"
    );
}

#[test]
fn options_are_null_terminated_for_the_native_boundary() {
    let prepared = prepare_vm_options(vec![String::from("-ea"), String::from("-esa")]);
    assert_eq!(prepared, vec![String::from("-ea\0"), String::from("-esa\0")]);
}

#[test]
fn creation_arguments_request_version_1_6() {
    let args = VmInitArgs::for_creation(3);
    assert_eq!(args.version, JNI_VERSION_1_6);
    assert_eq!(args.version, 0x0001_0006);
    assert_eq!(args.n_options, 3);
    assert!(!args.ignore_unrecognized);
}

#[test]
fn architecture_mismatch_gets_its_own_diagnosis() {
    let err = specialize_load_failure(
        "C:\\jdk\\bin\\server\\jvm.dll",
        Some(ERROR_BAD_EXE_FORMAT),
        String::from("original words"),
    );
    let message = err.describe();
    assert!(message.contains("Unable to load C:\\jdk\\bin\\server\\jvm.dll"));
    assert!(message.contains("ERROR_BAD_EXE_FORMAT"));
    assert!(message.contains("32-bit Java from a 64-bit Rust binary"));

    let err = specialize_load_failure("/usr/lib/jvm/libjvm.so", None, String::from("plain"));
    assert_eq!(err.describe(), "plain");
    let err = specialize_load_failure("x", Some(2), String::from("other code"));
    assert_eq!(err.describe(), "other code");
}

#[test]
fn result_codes_have_names() {
    assert_eq!(JniError::new(JNI_OK).describe(), "JNI_OK");
    assert_eq!(JniError::new(jerk::jni::JNI_EDETACHED).describe(), "JNI_EDETACHED");
    assert_eq!(JniError::new(jerk::jni::JNI_EVERSION).describe(), "JNI_EVERSION");
    assert_eq!(JniError::new(jerk::jni::JNI_ENOMEM).describe(), "JNI_ENOMEM");
    assert_eq!(JniError::new(JNI_EEXIST).describe(), "JNI_EEXIST");
    assert_eq!(JniError::new(jerk::jni::JNI_EINVAL).describe(), "JNI_EINVAL");
    assert_eq!(JniError::new(-77).describe(), "JNI_??? (-77)");
    assert_eq!(JniError::new(12).describe(), "JNI_??? (12)");
}

#[test]
fn preparing_no_options_yields_no_options() {
    assert_eq!(prepare_vm_options(Vec::new()), Vec::<String>::new());
}
