//! The process-wide VM lifecycle: a two-state machine, `Uninitialized` to
//! `Created`, guarded by the caller's mutex.
//!
//! The unverified shim keeps a single mutex-protected [`VmState`] cell for
//! the whole process. A thread that wants the VM locks the cell, asks
//! [`VmState::existing`], and only when the state is still `Uninitialized`
//! calls the creation entry point, feeding the outcome back through
//! [`VmState::on_create_result`] (and, when an instance already existed,
//! [`VmState::adopt_existing`]). The proofs at the end show that under this
//! discipline creation is attempted at most once after any success, and
//! that every caller observes the same handle.

use vstd::prelude::*;
use crate::jni::{JniError, JNI_EEXIST, JNI_ERR, JNI_OK};
use crate::jvm::VmHandle;

verus! {

/// The lifecycle of the one VM instance a process may hold.
#[derive(Clone, Copy, Debug, PartialEq, Eq, Structural)]
pub enum VmState {
    /// No creation attempt has taken effect yet.
    Uninitialized,
    /// A handle is stored; it is never reassigned afterwards. `reused` is
    /// true when the instance was adopted from an earlier creator rather
    /// than created here, in which case the startup options this crate
    /// intended — the classpath above all — may not be in effect.
    Created { vm: VmHandle, reused: bool },
}

/// What the creation call's outcome requires next.
#[derive(Clone, Copy, Debug, PartialEq, Eq, Structural)]
pub enum CreateStep {
    /// The VM was created and its handle stored.
    Ready { vm: VmHandle },
    /// The runtime refused because an instance already exists: enumerate
    /// the created VMs and adopt the first.
    AlreadyExists,
    /// Creation failed for any other reason; such failures are not retried.
    Fatal { error: JniError },
}

/// The outcome of one thread's guarded creation attempt, as fed back into
/// the state machine: what the creation entry point reported and, after an
/// "already exists" refusal, which first existing instance enumeration
/// found (null when it found none).
#[derive(Clone, Copy, Debug, PartialEq, Eq, Structural)]
pub enum EnsureOutcome {
    /// Creation reported success and wrote back this instance address.
    CreateOk { vm: usize },
    /// Creation refused with "already exists"; enumeration then reported
    /// this first existing instance address.
    CreateExists { first: usize },
    /// Creation failed with this code.
    CreateFailed { code: i32 },
}

/// One guarded step of the lifecycle: a thread that finds the state already
/// `Created` leaves it untouched; otherwise the outcome of its creation
/// attempt decides the next state. A success without a handle, a failure,
/// or an adoption that found nothing leave the state unchanged, so a later
/// caller attempts creation again.
pub open spec fn ensure_next(s: VmState, o: EnsureOutcome) -> VmState {
    match s {
        VmState::Created { .. } => s,
        VmState::Uninitialized => match o {
            EnsureOutcome::CreateOk { vm } => if vm != 0 {
                VmState::Created { vm: VmHandle { raw: vm }, reused: false }
            } else {
                s
            },
            EnsureOutcome::CreateExists { first } => if first != 0 {
                VmState::Created { vm: VmHandle { raw: first }, reused: true }
            } else {
                s
            },
            EnsureOutcome::CreateFailed { .. } => s,
        },
    }
}

/// A thread performing this step invokes the creation entry point exactly
/// when it finds the state `Uninitialized`.
pub open spec fn invokes_creation(s: VmState) -> bool {
    s is Uninitialized
}

/// The outcome yields a usable instance: a created or adopted non-null
/// handle.
pub open spec fn outcome_succeeds(o: EnsureOutcome) -> bool {
    match o {
        EnsureOutcome::CreateOk { vm } => vm != 0,
        EnsureOutcome::CreateExists { first } => first != 0,
        EnsureOutcome::CreateFailed { .. } => false,
    }
}

impl VmState {
    /// The stored handle and its provenance, once created.
    pub open spec fn spec_handle(self) -> Option<VmHandle> {
        match self {
            VmState::Uninitialized => None,
            VmState::Created { vm, .. } => Some(vm),
        }
    }

    /// Every handle this machine stores is non-null.
    pub open spec fn wf(self) -> bool {
        match self {
            VmState::Uninitialized => true,
            VmState::Created { vm, .. } => vm.wf(),
        }
    }

    /// The handle already stored, if any. Once the state is `Created` this
    /// answers every caller without touching the creation entry point
    /// again.
    pub fn existing(&self) -> (r: Option<VmHandle>)
        ensures
            r == self.spec_handle(),
            r is Some <==> !invokes_creation(*self),
    {
        match self {
            VmState::Uninitialized => None,
            VmState::Created { vm, .. } => Some(*vm),
        }
    }

    /// Whether the instance in use was adopted rather than created here.
    pub fn reused(&self) -> (r: bool)
        ensures
            r == match *self {
                VmState::Uninitialized => false,
                VmState::Created { reused, .. } => reused,
            },
    {
        match self {
            VmState::Uninitialized => false,
            VmState::Created { reused, .. } => *reused,
        }
    }

    /// Feed back what the creation entry point reported: `code` its result
    /// and `vm_raw` the instance address it wrote back. Success stores the
    /// handle and marks it freshly created; the "already exists" refusal
    /// leaves the state for [`VmState::adopt_existing`]; anything else is
    /// fatal and not retried. A success that wrote no handle back is
    /// refused as fatal rather than stored.
    pub fn on_create_result(&mut self, code: i32, vm_raw: usize) -> (r: CreateStep)
        requires
            *old(self) is Uninitialized,
        ensures
            code == JNI_OK ==> *final(self) == ensure_next(
                *old(self),
                EnsureOutcome::CreateOk { vm: vm_raw },
            ),
            code != JNI_OK ==> *final(self) == *old(self),
            code == JNI_OK && vm_raw != 0 ==> r == (CreateStep::Ready {
                vm: VmHandle { raw: vm_raw },
            }),
            code == JNI_OK && vm_raw == 0 ==> r == (CreateStep::Fatal {
                error: JniError { code: JNI_ERR },
            }),
            code == JNI_EEXIST ==> r == CreateStep::AlreadyExists,
            code != JNI_OK && code != JNI_EEXIST ==> r == (CreateStep::Fatal {
                error: JniError { code },
            }),
            final(self).wf(),
    {
        if code == JNI_OK {
            if vm_raw != 0 {
                let vm = VmHandle::new(vm_raw);
                *self = VmState::Created { vm, reused: false };
                CreateStep::Ready { vm }
            } else {
                CreateStep::Fatal { error: JniError::new(JNI_ERR) }
            }
        } else if code == JNI_EEXIST {
            CreateStep::AlreadyExists
        } else {
            CreateStep::Fatal { error: JniError::new(code) }
        }
    }

    /// Adopt the first instance that enumeration reported, after creation
    /// refused with "already exists". A non-null address is stored with the
    /// `reused` mark set — the classpath this crate intended can no longer
    /// be guaranteed. A null address stores nothing and yields `None`.
    pub fn adopt_existing(&mut self, first_raw: usize) -> (r: Option<VmHandle>)
        requires
            *old(self) is Uninitialized,
        ensures
            *final(self) == ensure_next(
                *old(self),
                EnsureOutcome::CreateExists { first: first_raw },
            ),
            first_raw != 0 ==> r == Some(VmHandle { raw: first_raw }) && *final(self)
                == (VmState::Created { vm: VmHandle { raw: first_raw }, reused: true }),
            first_raw == 0 ==> r is None && *final(self) == *old(self),
            final(self).wf(),
            r is Some ==> r->0.wf(),
    {
        if first_raw != 0 {
            let vm = VmHandle::new(first_raw);
            *self = VmState::Created { vm, reused: true };
            Some(vm)
        } else {
            None
        }
    }
}

/// The state after a sequence of guarded steps, one per thread, in the
/// order the mutex admitted them.
pub open spec fn run_ensure_trace(s: VmState, os: Seq<EnsureOutcome>) -> VmState
    decreases os.len(),
{
    if os.len() == 0 {
        s
    } else {
        run_ensure_trace(ensure_next(s, os[0]), os.drop_first())
    }
}

/// How many of the steps invoked the creation entry point.
pub open spec fn creations_invoked(s: VmState, os: Seq<EnsureOutcome>) -> nat
    decreases os.len(),
{
    if os.len() == 0 {
        0
    } else {
        (if invokes_creation(s) {
            1nat
        } else {
            0nat
        }) + creations_invoked(ensure_next(s, os[0]), os.drop_first())
    }
}

/// Once a handle is stored, it is final: every later step leaves the state
/// untouched and never invokes the creation entry point again.
pub proof fn lemma_created_is_stable(s: VmState, os: Seq<EnsureOutcome>)
    requires
        s is Created,
    ensures
        run_ensure_trace(s, os) == s,
        creations_invoked(s, os) == 0,
    decreases os.len(),
{
    if os.len() > 0 {
        assert(ensure_next(s, os[0]) == s);
        lemma_created_is_stable(s, os.drop_first());
    }
}

/// Single creation. However many threads race through the guarded section
/// from a fresh process — a trace of steps serialized by the mutex — if the
/// first attempt yields an instance, the creation entry point is invoked by
/// that attempt alone, and the state every later thread observes is the one
/// handle that attempt stored.
pub proof fn lemma_single_creation(os: Seq<EnsureOutcome>)
    requires
        os.len() > 0,
        outcome_succeeds(os[0]),
    ensures
        creations_invoked(VmState::Uninitialized, os) == 1,
        run_ensure_trace(VmState::Uninitialized, os) == ensure_next(VmState::Uninitialized, os[0]),
        run_ensure_trace(VmState::Uninitialized, os) is Created,
        os[0] matches EnsureOutcome::CreateOk { vm } ==> run_ensure_trace(
            VmState::Uninitialized,
            os,
        ) == (VmState::Created { vm: VmHandle { raw: vm }, reused: false }) && vm != 0,
        os[0] matches EnsureOutcome::CreateExists { first } ==> run_ensure_trace(
            VmState::Uninitialized,
            os,
        ) == (VmState::Created { vm: VmHandle { raw: first }, reused: true }) && first != 0,
{
    let s1 = ensure_next(VmState::Uninitialized, os[0]);
    assert(s1 is Created);
    lemma_created_is_stable(s1, os.drop_first());
}

} // verus!
