//! The loaded runtime library: its resolved entry-point table, the handle to
//! a created VM, preparation of the creation call's arguments, and the
//! bounded sizing negotiation used to enumerate already-created VMs.
//!
//! The native module itself is opened and queried by an unverified shim;
//! every symbol address and result code it obtains is handed to the
//! functions here as a plain value, and every decision is made here.

use vstd::prelude::*;
use crate::jni::{JniError, JNI_ENOMEM, JNI_OK, JNI_VERSION_1_6};

verus! {

/// Error constructing a [`Library`]: the native module could not be opened,
/// or a required entry point was missing from it.
#[derive(Clone, Debug)]
pub struct LoadError {
    pub message: String,
}

impl LoadError {
    /// Wrap a textual cause.
    pub fn new(message: String) -> (r: LoadError)
        ensures
            r.message@ == message@,
    {
        LoadError { message }
    }

    /// The carried description.
    pub fn describe(&self) -> (r: String)
        ensures
            r@ == self.message@,
    {
        self.message.clone()
    }
}

/// An opaque, non-null reference to a created VM instance.
///
/// Once obtained it is never reassigned or released by this crate: the
/// runtime owns its own teardown.
#[derive(Clone, Copy, Debug, PartialEq, Eq, Structural)]
pub struct VmHandle {
    /// The address of the runtime instance, as an opaque word.
    pub raw: usize,
}

impl VmHandle {
    /// The handle refers to an instance: its address is non-null. Every
    /// function of this crate that produces a handle establishes this.
    pub open spec fn wf(self) -> bool {
        self.raw != 0
    }

    /// Wrap a non-null address.
    pub fn new(raw: usize) -> (r: VmHandle)
        requires
            raw != 0,
        ensures
            r.raw == raw,
            r.wf(),
    {
        VmHandle { raw }
    }

    /// The wrapped address.
    pub fn get(&self) -> (r: usize)
        ensures
            r == self.raw,
    {
        self.raw
    }
}

/// The bound on sizing retries while enumerating created VMs.
pub const MAX_ENUMERATION_ATTEMPTS: u32 = 10;

/// The name under which the creation entry point is resolved, in the
/// null-terminated form the symbol-lookup primitive requires.
pub fn create_vm_symbol() -> (r: &'static str)
    ensures
        r@ == "JNI_CreateJavaVM\u{0}"@,
        r@.len() > 0 && r@.last() == '\u{0}',
{
    proof {
        reveal_strlit("JNI_CreateJavaVM\u{0}");
    }
    "JNI_CreateJavaVM\u{0}"
}

/// The name under which the enumeration entry point is resolved.
pub fn get_created_vms_symbol() -> (r: &'static str)
    ensures
        r@ == "JNI_GetCreatedJavaVMs\u{0}"@,
        r@.len() > 0 && r@.last() == '\u{0}',
{
    proof {
        reveal_strlit("JNI_GetCreatedJavaVMs\u{0}");
    }
    "JNI_GetCreatedJavaVMs\u{0}"
}

/// The name under which the default-arguments entry point is resolved.
pub fn get_default_args_symbol() -> (r: &'static str)
    ensures
        r@ == "JNI_GetDefaultJavaVMInitArgs\u{0}"@,
        r@.len() > 0 && r@.last() == '\u{0}',
{
    proof {
        reveal_strlit("JNI_GetDefaultJavaVMInitArgs\u{0}");
    }
    "JNI_GetDefaultJavaVMInitArgs\u{0}"
}

/// The message reported when the symbol of the given name cannot be found.
pub open spec fn missing_symbol_seq(name: Seq<char>) -> Seq<char> {
    "Symbol \""@ + name + "\" missing from JVM library"@
}

fn missing_symbol_message(name: &str) -> (r: String)
    ensures
        r@ == missing_symbol_seq(name@),
{
    let mut m = String::from_str("Symbol \"");
    m.append(name);
    m.append("\" missing from JVM library");
    m
}

/// The resolved entry-point table of a runtime library.
///
/// Invariant: a value of this type only exists fully populated — every
/// address is non-null, or [`JvmApi::load`] refused to build the table.
#[derive(Clone, Copy, Debug, PartialEq, Eq, Structural)]
pub struct JvmApi {
    /// Address of the creation entry point.
    pub create_vm: usize,
    /// Address of the enumeration entry point.
    pub get_created_vms: usize,
    /// Address of the default-arguments entry point.
    pub get_default_args: usize,
}

impl JvmApi {
    /// The table is fully populated: no entry point is null.
    pub open spec fn wf(self) -> bool {
        self.create_vm != 0 && self.get_created_vms != 0 && self.get_default_args != 0
    }

    /// Build the table from the three resolved addresses, or report exactly
    /// which required symbol was missing (the first one, in resolution
    /// order). A partially resolved table is never produced.
    pub fn load(create_vm: usize, get_created_vms: usize, get_default_args: usize) -> (r: Result<
        JvmApi,
        LoadError,
    >)
        ensures
            create_vm != 0 && get_created_vms != 0 && get_default_args != 0 ==> r == Ok::<
                JvmApi,
                LoadError,
            >(JvmApi { create_vm, get_created_vms, get_default_args }) && r->Ok_0.wf(),
            create_vm == 0 ==> (r matches Err(e) && e.message@ == missing_symbol_seq(
                "JNI_CreateJavaVM"@,
            )),
            create_vm != 0 && get_created_vms == 0 ==> (r matches Err(e) && e.message@
                == missing_symbol_seq("JNI_GetCreatedJavaVMs"@)),
            create_vm != 0 && get_created_vms != 0 && get_default_args == 0 ==> (r matches Err(e)
                && e.message@ == missing_symbol_seq("JNI_GetDefaultJavaVMInitArgs"@)),
    {
        if create_vm == 0 {
            Err(LoadError::new(missing_symbol_message("JNI_CreateJavaVM")))
        } else if get_created_vms == 0 {
            Err(LoadError::new(missing_symbol_message("JNI_GetCreatedJavaVMs")))
        } else if get_default_args == 0 {
            Err(LoadError::new(missing_symbol_message("JNI_GetDefaultJavaVMInitArgs")))
        } else {
            Ok(JvmApi { create_vm, get_created_vms, get_default_args })
        }
    }
}

/// A loaded runtime library: the owner of the resolved entry-point table.
/// The opaque module handle it was resolved from, if any, is retained by the
/// unverified shim for the life of the process, so the table never outlives
/// its module.
#[derive(Clone, Copy, Debug, PartialEq, Eq, Structural)]
pub struct Library {
    /// The fully resolved entry-point table.
    pub jvm: JvmApi,
}

impl Library {
    /// Take ownership of a resolved table.
    pub fn new(jvm: JvmApi) -> (r: Library)
        ensures
            r.jvm == jvm,
    {
        Library { jvm }
    }
}

/// Each option the creation entry point receives, terminated by the null
/// character its calling convention requires.
pub open spec fn nul_terminated_all(opts: Seq<Seq<char>>) -> Seq<Seq<char>> {
    opts.map_values(|o: Seq<char>| o.push('\u{0}'))
}

/// Append the terminating null character to every startup option, as the
/// embedding interface requires before the strings cross the native
/// boundary.
pub fn prepare_vm_options(options: Vec<String>) -> (r: Vec<String>)
    ensures
        r.deep_view() == nul_terminated_all(options.deep_view()),
{
    let n = options.len();
    let mut r: Vec<String> = Vec::new();
    let mut i: usize = 0;
    while i < n
        invariant
            n == options.len(),
            i <= n,
            i == r.len(),
            forall|j: int| 0 <= j < i ==> r@[j]@ == options@[j]@.push('\u{0}'),
        decreases n - i,
    {
        let mut o = options[i].clone();
        o.push('\u{0}');
        r.push(o);
        i = i + 1;
    }
    proof {
        assert forall|j: int| 0 <= j < n implies r.deep_view()[j] == nul_terminated_all(
            options.deep_view(),
        )[j] by {
            assert(r.deep_view()[j] == r@[j]@);
            assert(options.deep_view()[j] == options@[j]@);
        }
        assert(r.deep_view() =~= nul_terminated_all(options.deep_view()));
    }
    r
}

/// The fixed part of the record handed to the creation entry point. The
/// option strings themselves travel beside it; the unverified shim lays both
/// out in the runtime's native format.
#[derive(Clone, Copy, Debug, PartialEq, Eq, Structural)]
pub struct VmInitArgs {
    /// The requested interface version.
    pub version: i32,
    /// How many option strings accompany the record.
    pub n_options: usize,
    /// Whether the runtime may skip options it does not recognize.
    pub ignore_unrecognized: bool,
}

impl VmInitArgs {
    /// The record for a creation call with `n_options` options: interface
    /// version 1.6, unrecognized options treated as errors.
    pub fn for_creation(n_options: usize) -> (r: VmInitArgs)
        ensures
            r.version == JNI_VERSION_1_6,
            r.n_options == n_options,
            !r.ignore_unrecognized,
    {
        VmInitArgs { version: JNI_VERSION_1_6, n_options, ignore_unrecognized: false }
    }
}

/// What one enumeration call decided.
#[derive(Clone, Copy, Debug, PartialEq, Eq, Structural)]
pub enum EnumerationStep {
    /// The call succeeded and the buffer was large enough: the first
    /// `count` entries of the receiving buffer are valid.
    Done { count: usize },
    /// The runtime reported more VMs than the buffer holds: grow it to the
    /// reported total and call again. This is sizing negotiation, not an
    /// error.
    Grow { capacity: usize },
    /// The call failed.
    Fail { error: JniError },
}

/// The bounded sizing negotiation around the enumeration entry point.
///
/// The caller makes at most [`MAX_ENUMERATION_ATTEMPTS`] calls, growing the
/// receiving buffer each time the runtime reports a larger total; going past
/// the bound is resource exhaustion, reported as [`JNI_ENOMEM`].
#[derive(Clone, Copy, Debug, PartialEq, Eq, Structural)]
pub struct VmEnumeration {
    /// Calls made so far.
    pub attempts: u32,
    /// Current capacity of the receiving buffer.
    pub capacity: usize,
}

impl VmEnumeration {
    /// Start a negotiation: no calls made yet, with an initial guess of one
    /// slot (the common case is a single created VM).
    pub fn new() -> (r: VmEnumeration)
        ensures
            r.attempts == 0,
            r.capacity == 1,
    {
        VmEnumeration { attempts: 0, capacity: 1 }
    }

    /// Whether another enumeration call may be made.
    pub fn may_attempt(&self) -> (r: bool)
        ensures
            r == (self.attempts < MAX_ENUMERATION_ATTEMPTS),
    {
        self.attempts < MAX_ENUMERATION_ATTEMPTS
    }

    /// Decide on the outcome of one enumeration call: `code` is its result
    /// code and `reported` the total number of VMs the runtime wrote back.
    /// Success with a fitting total ends the negotiation; a larger total
    /// grows the buffer and tries again, whatever the code; anything else
    /// fails with the code.
    pub fn step(&mut self, code: i32, reported: usize) -> (r: EnumerationStep)
        requires
            old(self).attempts < MAX_ENUMERATION_ATTEMPTS,
        ensures
            final(self).attempts == old(self).attempts + 1,
            code == JNI_OK && reported <= old(self).capacity ==> r == (EnumerationStep::Done {
                count: reported,
            }) && final(self).capacity == old(self).capacity,
            reported > old(self).capacity ==> r == (EnumerationStep::Grow { capacity: reported })
                && final(self).capacity == reported,
            code != JNI_OK && reported <= old(self).capacity ==> r == (EnumerationStep::Fail {
                error: JniError { code },
            }) && final(self).capacity == old(self).capacity,
    {
        self.attempts = self.attempts + 1;
        if code == JNI_OK && reported <= self.capacity {
            EnumerationStep::Done { count: reported }
        } else if reported > self.capacity {
            self.capacity = reported;
            EnumerationStep::Grow { capacity: reported }
        } else {
            EnumerationStep::Fail { error: JniError::new(code) }
        }
    }

    /// The error reported when the retry bound is exhausted.
    pub fn exhausted_error(&self) -> (r: JniError)
        ensures
            r.code == JNI_ENOMEM,
    {
        JniError::new(JNI_ENOMEM)
    }
}

/// The message that replaces a load failure whose reported reason is the
/// well-known "wrong machine architecture" code: the common real-world cause
/// is mixing a 32-bit runtime with a 64-bit host or the reverse.
pub open spec fn arch_mismatch_seq(libjvm: Seq<char>) -> Seq<char> {
    "Unable to load "@ + libjvm + ": ERROR_BAD_EXE_FORMAT\r\n"@
        + "This is likely caused by trying to use 32-bit Java from a 64-bit Rust binary or vicea versa.\r\n"@
        + "This in turn is likely caused by not having a corresponding Java installation.\r\n"@
}

/// The reason code the platform loader reports for an image of the wrong
/// machine architecture.
pub const ERROR_BAD_EXE_FORMAT: i32 = 0x00C1;

/// Specialize the description of a module-open failure: the well-known
/// "wrong architecture" reason gets a diagnosis naming that cause, any other
/// failure keeps the loader's own description. `reason` is the platform
/// loader's numeric failure code, where it reports one.
pub fn specialize_load_failure(libjvm: &str, reason: Option<i32>, fallback: String) -> (r:
    LoadError)
    ensures
        reason == Some(ERROR_BAD_EXE_FORMAT) ==> r.message@ == arch_mismatch_seq(libjvm@),
        reason != Some(ERROR_BAD_EXE_FORMAT) ==> r.message@ == fallback@,
{
    if let Some(code) = reason {
        if code == ERROR_BAD_EXE_FORMAT {
            let mut m = String::from_str("Unable to load ");
            m.append(libjvm);
            m.append(": ERROR_BAD_EXE_FORMAT\r\n");
            m.append(
                "This is likely caused by trying to use 32-bit Java from a 64-bit Rust binary or vicea versa.\r\n",
            );
            m.append(
                "This in turn is likely caused by not having a corresponding Java installation.\r\n",
            );
            LoadError::new(m)
        } else {
            LoadError::new(fallback)
        }
    } else {
        LoadError::new(fallback)
    }
}

} // verus!
