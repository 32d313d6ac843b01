//! Driving one unit-style test method inside the runtime: identifier
//! mangling, startup options, the per-invocation protocol state machine,
//! and the diagnostics each failure carries.
//!
//! A single invocation walks `Idle → ClassResolved → MethodResolved →
//! Invoked → {Succeeded | ExceptionRaised}`; any resolution failure
//! short-circuits to the terminal `Failed` state without attempting the
//! remaining steps. The unverified shim performs the native calls and feeds
//! each result back as a plain value; every decision and every message is
//! made here.

use vstd::prelude::*;
use crate::text::{replace_char_seq, replace_char};

verus! {

/// A failure while running a test method inside the runtime.
#[derive(Clone, Debug)]
pub enum JavaTestError {
    /// A failure described by its message.
    Unknown(String),
    /// Reserved so that adding failure kinds later does not break callers.
    _NonExhaustive,
}

impl JavaTestError {
    /// The carried description.
    pub fn message(&self) -> (r: String)
        ensures
            self matches JavaTestError::Unknown(m) ==> r@ == m@,
            self is _NonExhaustive ==> r@ == "NonExhaustive"@,
    {
        match self {
            JavaTestError::Unknown(m) => m.clone(),
            JavaTestError::_NonExhaustive => String::from_str("NonExhaustive"),
        }
    }
}

/// The classpath startup option for the given archive path.
pub open spec fn classpath_option_seq(jar: Seq<char>) -> Seq<char> {
    "-Djava.class.path="@ + jar
}

/// The startup options a fresh VM is created with: assertions enabled,
/// system assertions enabled, and the archive under test as the classpath.
pub open spec fn vm_options_seq(jar: Seq<char>) -> Seq<Seq<char>> {
    seq!["-ea"@, "-esa"@, classpath_option_seq(jar)]
}

/// Build the startup options for a fresh VM whose classpath is the archive
/// at `jar`.
pub fn vm_options(jar: &str) -> (r: Vec<String>)
    ensures
        r.deep_view() == vm_options_seq(jar@),
{
    let mut r: Vec<String> = Vec::new();
    r.push(String::from_str("-ea"));
    r.push(String::from_str("-esa"));
    let mut cp = String::from_str("-Djava.class.path=");
    cp.append(jar);
    r.push(cp);
    proof {
        assert(r.deep_view() =~= vm_options_seq(jar@));
    }
    r
}

/// The runtime's internal identifier for a class: the dot-separated package
/// with its separators replaced by the runtime's slash, the class name
/// appended, and the terminating null character the resolution call
/// requires.
pub open spec fn class_identifier_seq(package: Seq<char>, class: Seq<char>) -> Seq<char> {
    replace_char_seq(package, '.', '/') + seq!['/'] + class + seq!['\u{0}']
}

/// Mangle a dot-separated package and a class name into the runtime's
/// null-terminated internal class identifier.
pub fn class_identifier(package: &str, class: &str) -> (r: String)
    ensures
        r@ == class_identifier_seq(package@, class@),
{
    let mut r = replace_char(package, '.', '/');
    r.push('/');
    r.append(class);
    r.push('\u{0}');
    proof {
        assert(r@ =~= class_identifier_seq(package@, class@));
    }
    r
}

/// The method name in the null-terminated form the resolution call
/// requires.
pub open spec fn method_identifier_seq(method: Seq<char>) -> Seq<char> {
    method + seq!['\u{0}']
}

/// Append the terminating null character to a method name.
pub fn method_identifier(method: &str) -> (r: String)
    ensures
        r@ == method_identifier_seq(method@),
{
    let mut r = String::from_str(method);
    r.push('\u{0}');
    proof {
        assert(r@ =~= method_identifier_seq(method@));
    }
    r
}

/// The null-terminated type signature of the only invocation shape this
/// crate supports: a static method taking no arguments and returning no
/// value.
pub fn method_signature() -> (r: &'static str)
    ensures
        r@ == "()V\u{0}"@,
        r@ == seq!['(', ')', 'V', '\u{0}'],
{
    proof {
        reveal_strlit("()V\u{0}");
        assert("()V\u{0}"@ =~= seq!['(', ')', 'V', '\u{0}']);
    }
    "()V\u{0}"
}

/// The warning appended to a resolution diagnostic when the VM in use was
/// adopted rather than created here: the archive this crate put on its
/// intended classpath may never have been loaded.
pub open spec fn reused_vm_warning_seq() -> Seq<char> {
    "  - WARNING: jerk::run_test! was unable to start a new JVM / specify a java.class.path.  The .jar may not have been loaded!\n"@
}

/// The diagnostic for a class that could not be resolved: it enumerates the
/// most likely causes — a typo, an archive built with a mismatched
/// toolchain, an archive never produced — and, when the VM was adopted, the
/// classpath uncertainty warning.
pub open spec fn class_not_found_seq(package: Seq<char>, class: Seq<char>, reused_vm: bool) -> Seq<
    char,
> {
    "Failed to find class "@ + package + "."@ + class + ".  Possible causes:\n"@ + (if reused_vm {
        reused_vm_warning_seq()
    } else {
        Seq::<char>::empty()
    }) + "  - Typos in the package or class name.\n"@
        + "  - The corresponding .jar may have been built with a newer JDK (are you mixing old and new JDKs for 32-bit and 64-bit?)\n"@
        + "  - The corresponding .jar may not be have been found (are you using `jerk_build::metabuild()` in your build.rs?)\n"@
}

/// Build the class-not-found diagnostic.
pub fn class_not_found_message(package: &str, class: &str, reused_vm: bool) -> (r: String)
    ensures
        r@ == class_not_found_seq(package@, class@, reused_vm),
{
    let mut m = String::from_str("Failed to find class ");
    m.append(package);
    m.append(".");
    m.append(class);
    m.append(".  Possible causes:\n");
    if reused_vm {
        m.append(
            "  - WARNING: jerk::run_test! was unable to start a new JVM / specify a java.class.path.  The .jar may not have been loaded!\n",
        );
    }
    m.append("  - Typos in the package or class name.\n");
    m.append(
        "  - The corresponding .jar may have been built with a newer JDK (are you mixing old and new JDKs for 32-bit and 64-bit?)\n",
    );
    m.append(
        "  - The corresponding .jar may not be have been found (are you using `jerk_build::metabuild()` in your build.rs?)\n",
    );
    proof {
        assert(m@ =~= class_not_found_seq(package@, class@, reused_vm));
    }
    m
}

/// The diagnostic for a method that could not be resolved on its class.
pub open spec fn method_not_found_seq(class: Seq<char>, method: Seq<char>) -> Seq<char> {
    "Failed to GetStaticMethodID "@ + class + "."@ + method
}

/// Build the method-not-found diagnostic.
pub fn method_not_found_message(class: &str, method: &str) -> (r: String)
    ensures
        r@ == method_not_found_seq(class@, method@),
{
    let mut m = String::from_str("Failed to GetStaticMethodID ");
    m.append(class);
    m.append(".");
    m.append(method);
    proof {
        assert(m@ =~= method_not_found_seq(class@, method@));
    }
    m
}

/// The failure reported when the invoked method raised an exception inside
/// the runtime; it names the class and method that threw.
pub open spec fn exception_seq(class: Seq<char>, method: Seq<char>) -> Seq<char> {
    class + "."@ + method + "() threw a Java Exception"@
}

/// Build the exception failure message.
pub fn exception_message(class: &str, method: &str) -> (r: String)
    ensures
        r@ == exception_seq(class@, method@),
{
    let mut m = String::from_str(class);
    m.append(".");
    m.append(method);
    m.append("() threw a Java Exception");
    proof {
        assert(m@ =~= exception_seq(class@, method@));
    }
    m
}

/// The failure reported when no per-thread interface could be obtained.
pub fn vm_init_failed_message() -> (r: String)
    ensures
        r@ == "Couldn't initialize Java VM"@,
{
    String::from_str("Couldn't initialize Java VM")
}

/// Where a single invocation stands.
#[derive(Clone, Copy, Debug, PartialEq, Eq, Structural)]
pub enum InvocationState {
    /// Nothing resolved yet.
    Idle,
    /// The class was resolved inside the thread's interface.
    ClassResolved,
    /// The static no-argument, no-return method was resolved on the class.
    MethodResolved,
    /// The method was dispatched; its exception state is not yet known.
    Invoked,
    /// The method returned with no pending exception.
    Succeeded,
    /// The method raised inside the runtime; the failure was reported and
    /// the pending-exception state cleared.
    ExceptionRaised,
    /// A resolution step failed; the remaining steps were never attempted.
    Failed,
}

/// What finishing an invocation decided.
#[derive(Debug)]
pub struct InvocationOutcome {
    /// Success, or the failure handed to the caller. A raised exception is
    /// an ordinary, recoverable failure: a failing test is an expected
    /// outcome, not an environment fault.
    pub result: Result<(), JavaTestError>,
    /// Whether the shim must clear the runtime's pending-exception state,
    /// so the thread's interface remains usable for later invocations.
    pub must_clear: bool,
}

/// One test invocation: the identity of the method under test and the
/// protocol state.
#[derive(Clone, Debug)]
pub struct TestRun {
    /// Dot-separated package of the class under test.
    pub package: String,
    /// Name of the class under test.
    pub class: String,
    /// Name of the static test method.
    pub method: String,
    /// Where the protocol stands.
    pub state: InvocationState,
}

impl TestRun {
    /// Begin an invocation of `package.class.method`.
    pub fn new(package: String, class: String, method: String) -> (r: TestRun)
        ensures
            r.package@ == package@,
            r.class@ == class@,
            r.method@ == method@,
            r.state == InvocationState::Idle,
    {
        TestRun { package, class, method, state: InvocationState::Idle }
    }

    /// The runtime's internal identifier this run resolves, null-terminated.
    pub fn class_id(&self) -> (r: String)
        ensures
            r@ == class_identifier_seq(self.package@, self.class@),
    {
        class_identifier(self.package.as_str(), self.class.as_str())
    }

    /// The null-terminated method name this run resolves.
    pub fn method_id(&self) -> (r: String)
        ensures
            r@ == method_identifier_seq(self.method@),
    {
        method_identifier(self.method.as_str())
    }

    /// Feed back the class resolution result: the opaque class reference
    /// the thread's interface reported, null when the class was not found.
    /// `reused_vm` says whether the VM in use was adopted, which adds the
    /// classpath uncertainty warning to the diagnostic. Not finding the
    /// class is fatal for the invocation: the run moves to `Failed` and no
    /// further step is attempted.
    pub fn on_class_resolution(&mut self, class_ref: usize, reused_vm: bool) -> (r: Result<
        (),
        JavaTestError,
    >)
        requires
            old(self).state == InvocationState::Idle,
        ensures
            final(self).package == old(self).package,
            final(self).class == old(self).class,
            final(self).method == old(self).method,
            class_ref != 0 ==> r is Ok && final(self).state == InvocationState::ClassResolved,
            class_ref == 0 ==> (r matches Err(JavaTestError::Unknown(m)) && m@
                == class_not_found_seq(old(self).package@, old(self).class@, reused_vm))
                && final(self).state == InvocationState::Failed,
    {
        if class_ref != 0 {
            self.state = InvocationState::ClassResolved;
            Ok(())
        } else {
            self.state = InvocationState::Failed;
            let m = class_not_found_message(self.package.as_str(), self.class.as_str(), reused_vm);
            Err(JavaTestError::Unknown(m))
        }
    }

    /// Feed back the method resolution result: the opaque method reference,
    /// null when no static method of the expected signature was found. Not
    /// finding it is fatal for the invocation.
    pub fn on_method_resolution(&mut self, method_ref: usize) -> (r: Result<(), JavaTestError>)
        requires
            old(self).state == InvocationState::ClassResolved,
        ensures
            final(self).package == old(self).package,
            final(self).class == old(self).class,
            final(self).method == old(self).method,
            method_ref != 0 ==> r is Ok && final(self).state == InvocationState::MethodResolved,
            method_ref == 0 ==> (r matches Err(JavaTestError::Unknown(m)) && m@
                == method_not_found_seq(old(self).class@, old(self).method@)) && final(self).state
                == InvocationState::Failed,
    {
        if method_ref != 0 {
            self.state = InvocationState::MethodResolved;
            Ok(())
        } else {
            self.state = InvocationState::Failed;
            let m = method_not_found_message(self.class.as_str(), self.method.as_str());
            Err(JavaTestError::Unknown(m))
        }
    }

    /// The method was dispatched with zero arguments; its exception state
    /// is to be checked next. The call blocks the shim's thread for as long
    /// as the method runs — there is no timeout or cancellation.
    pub fn on_invoked(&mut self)
        requires
            old(self).state == InvocationState::MethodResolved,
        ensures
            final(self).package == old(self).package,
            final(self).class == old(self).class,
            final(self).method == old(self).method,
            final(self).state == InvocationState::Invoked,
    {
        self.state = InvocationState::Invoked;
    }

    /// Feed back whether an exception is pending after the invocation. A
    /// pending exception yields a failure naming the class and method that
    /// threw, and instructs the shim to clear the pending state — after
    /// printing the runtime's own description of it — so the thread's
    /// interface remains usable for subsequent invocations. No pending
    /// exception is success.
    pub fn on_exception_check(&mut self, exception_pending: bool) -> (r: InvocationOutcome)
        requires
            old(self).state == InvocationState::Invoked,
        ensures
            final(self).package == old(self).package,
            final(self).class == old(self).class,
            final(self).method == old(self).method,
            exception_pending ==> final(self).state == InvocationState::ExceptionRaised
                && r.must_clear && (r.result matches Err(JavaTestError::Unknown(m)) && m@
                == exception_seq(old(self).class@, old(self).method@)),
            !exception_pending ==> final(self).state == InvocationState::Succeeded && !r.must_clear
                && r.result is Ok,
    {
        if exception_pending {
            self.state = InvocationState::ExceptionRaised;
            let m = exception_message(self.class.as_str(), self.method.as_str());
            InvocationOutcome { result: Err(JavaTestError::Unknown(m)), must_clear: true }
        } else {
            self.state = InvocationState::Succeeded;
            InvocationOutcome { result: Ok(()), must_clear: false }
        }
    }
}

} // verus!
