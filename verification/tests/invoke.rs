//! The test-invocation protocol: identifier mangling, diagnostics, the
//! exception round trip, and the startup options.

use jerk::test::{
    class_identifier, class_not_found_message, exception_message, method_identifier,
    method_not_found_message, method_signature, vm_options, InvocationState, JavaTestError,
    TestRun,
};

#[test]
fn name_mangling_builds_the_internal_identifier() {
    // A stub resolver would receive exactly this identifier, method name
    // and signature for Run(archive, "a.b.c", "Foo", "test").
    let run = TestRun::new(
        String::from("a.b.c"),
        String::from("Foo"),
        String::from("test"),
    );
    assert_eq!(run.class_id(), "a/b/c/Foo\0");
    assert_eq!(run.method_id(), "test\0");
    assert_eq!(method_signature(), "()V\0");
}

#[test]
fn mangling_leaves_undotted_packages_alone() {
    assert_eq!(class_identifier("single", "C"), "single/C\0");
    assert_eq!(method_identifier("main"), "main\0");
}

#[test]
fn exception_round_trip() {
    let mut run = TestRun::new(
        String::from("com.example"),
        String::from("Widget"),
        String::from("explodes"),
    );
    run.on_class_resolution(0x10, false).unwrap();
    run.on_method_resolution(0x20).unwrap();
    run.on_invoked();

    // The method raised inside the runtime: the failure names the class
    // and method, and the pending exception must be cleared so the
    // thread's interface stays usable.
    let outcome = run.on_exception_check(true);
    assert!(outcome.must_clear);
    let message = match outcome.result {
        Err(e) => e.message(),
        Ok(()) => panic!("a raised exception must be a failure"),
    };
    assert!(message.contains("Widget"));
    assert!(message.contains("explodes"));
    assert_eq!(message, "Widget.explodes() threw a Java Exception");
    assert_eq!(run.state, InvocationState::ExceptionRaised);

    // A subsequent invocation on the same thread succeeds.
    let mut again = TestRun::new(
        String::from("com.example"),
        String::from("Widget"),
        String::from("behaves"),
    );
    again.on_class_resolution(0x10, false).unwrap();
    again.on_method_resolution(0x21).unwrap();
    again.on_invoked();
    let outcome = again.on_exception_check(false);
    assert!(!outcome.must_clear);
    assert!(outcome.result.is_ok());
    assert_eq!(again.state, InvocationState::Succeeded);
}

#[test]
fn class_not_found_enumerates_causes() {
    let mut run = TestRun::new(
        String::from("com.example"),
        String::from("Missing"),
        String::from("test"),
    );
    let err = run.on_class_resolution(0, false).unwrap_err();
    let message = err.message();
    assert!(message.contains("Failed to find class com.example.Missing"));
    assert!(message.contains("Typos in the package or class name"));
    assert!(message.contains("may not be have been found"));
    assert!(message.contains("may have been built with a newer JDK"));
    assert!(!message.contains("WARNING"));
    assert_eq!(run.state, InvocationState::Failed);
}

#[test]
fn class_not_found_on_an_adopted_vm_warns_about_the_classpath() {
    let mut run = TestRun::new(
        String::from("com.example"),
        String::from("Missing"),
        String::from("test"),
    );
    let err = run.on_class_resolution(0, true).unwrap_err();
    let message = err.message();
    assert!(message.contains("Typos in the package or class name"));
    assert!(message.contains("WARNING"));
    assert!(message.contains("The .jar may not have been loaded!"));
}

#[test]
fn message_builders_match_the_protocol() {
    assert!(class_not_found_message("p.q", "C", true).contains("unable to start a new JVM"));
    assert_eq!(
        method_not_found_message("C", "m"),
        "Failed to GetStaticMethodID C.m"
    );
    assert_eq!(exception_message("C", "m"), "C.m() threw a Java Exception");
}

#[test]
fn method_not_found_is_fatal() {
    let mut run = TestRun::new(
        String::from("p"),
        String::from("C"),
        String::from("absent"),
    );
    run.on_class_resolution(0x10, false).unwrap();
    let err = run.on_method_resolution(0).unwrap_err();
    assert_eq!(err.message(), "Failed to GetStaticMethodID C.absent");
    assert_eq!(run.state, InvocationState::Failed);
}

#[test]
fn startup_options_enable_assertions_and_set_the_classpath() {
    let opts = vm_options("/tmp/example.jar");
    assert_eq!(
        opts,
        vec![
            String::from("-ea"),
            String::from("-esa"),
            String::from("-Djava.class.path=/tmp/example.jar"),
        ]
    );
}

#[test]
fn error_messages_surface_through_the_error_type() {
    let e = JavaTestError::Unknown(String::from("boom"));
    assert_eq!(e.message(), "boom");
}
