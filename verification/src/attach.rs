//! Per-thread attachment to the VM: a lazily filled, thread-owned cache of
//! the runtime's per-thread interface pointer.
//!
//! Each host thread owns one [`ThreadAttachment`] cell (the unverified shim
//! keeps it in thread-local storage). The first request on a thread calls
//! the VM's attach-current-thread operation and caches the interface it
//! reports; every later request answers from the cache without another
//! attach call. An attach call that does not report success is an
//! unrecoverable environment fault for that thread, not a retryable
//! condition. The cell is never invalidated: the runtime is not told when
//! the thread ends, a known gap that leaks a small per-thread resource.

use vstd::prelude::*;
use crate::jni::{JniError, JNI_ERR, JNI_OK};

verus! {

/// An opaque, non-null reference to the runtime's call interface for one
/// host thread. Owned by that thread alone; never shared, never passed
/// between threads.
#[derive(Clone, Copy, Debug, PartialEq, Eq, Structural)]
pub struct EnvHandle {
    /// The address of the per-thread interface, as an opaque word.
    pub raw: usize,
}

impl EnvHandle {
    /// The handle refers to an interface: its address is non-null.
    pub open spec fn wf(self) -> bool {
        self.raw != 0
    }

    /// Wrap a non-null address.
    pub fn new(raw: usize) -> (r: EnvHandle)
        requires
            raw != 0,
        ensures
            r.raw == raw,
            r.wf(),
    {
        EnvHandle { raw }
    }

    /// The wrapped address.
    pub fn get(&self) -> (r: usize)
        ensures
            r == self.raw,
    {
        self.raw
    }
}

/// What one thread's attach call reported: its result code and the
/// interface address it wrote back.
#[derive(Clone, Copy, Debug, PartialEq, Eq, Structural)]
pub struct AttachOutcome {
    /// The attach call's result code.
    pub code: i32,
    /// The interface address the call wrote back.
    pub env: usize,
}

/// The cache after one request is served: an empty cell takes whatever a
/// successful attach reported; a filled cell is never touched again.
pub open spec fn attach_next(c: Option<EnvHandle>, o: AttachOutcome) -> Option<EnvHandle> {
    match c {
        Some(_) => c,
        None => if o.code == JNI_OK && o.env != 0 {
            Some(EnvHandle { raw: o.env })
        } else {
            None
        },
    }
}

/// A request invokes the attach operation exactly when the cache is empty.
pub open spec fn invokes_attach(c: Option<EnvHandle>) -> bool {
    c is None
}

/// The calling thread's lazily filled attachment cell.
#[derive(Clone, Copy, Debug, PartialEq, Eq, Structural)]
pub struct ThreadAttachment {
    /// The cached interface, once the thread has attached.
    pub cached: Option<EnvHandle>,
}

impl ThreadAttachment {
    /// Every cached handle is non-null.
    pub open spec fn wf(self) -> bool {
        match self.cached {
            None => true,
            Some(e) => e.wf(),
        }
    }

    /// A fresh, unattached cell.
    pub fn new() -> (r: ThreadAttachment)
        ensures
            r.cached is None,
            r.wf(),
    {
        ThreadAttachment { cached: None }
    }

    /// The cached interface, if this thread has attached. Identical on
    /// every call: the cell never changes once filled.
    pub fn interface(&self) -> (r: Option<EnvHandle>)
        ensures
            r == self.cached,
            r is None <==> invokes_attach(self.cached),
    {
        self.cached
    }

    /// Feed back what the attach-current-thread call reported. Success
    /// with a non-null interface fills the cache for the remainder of the
    /// thread's lifetime; anything else leaves the cell empty and reports
    /// the failure, which the caller treats as unrecoverable.
    pub fn on_attach_result(&mut self, code: i32, env_raw: usize) -> (r: Result<
        EnvHandle,
        JniError,
    >)
        requires
            old(self).cached is None,
        ensures
            final(self).cached == attach_next(
                old(self).cached,
                AttachOutcome { code, env: env_raw },
            ),
            code == JNI_OK && env_raw != 0 ==> r == Ok::<EnvHandle, JniError>(
                EnvHandle { raw: env_raw },
            ) && final(self).cached == Some(EnvHandle { raw: env_raw }),
            code != JNI_OK ==> r == Err::<EnvHandle, JniError>(JniError { code })
                && final(self).cached is None,
            code == JNI_OK && env_raw == 0 ==> r == Err::<EnvHandle, JniError>(
                JniError { code: JNI_ERR },
            ) && final(self).cached is None,
            final(self).wf(),
    {
        if code == JNI_OK && env_raw != 0 {
            let e = EnvHandle::new(env_raw);
            self.cached = Some(e);
            Ok(e)
        } else if code != JNI_OK {
            Err(JniError::new(code))
        } else {
            Err(JniError::new(JNI_ERR))
        }
    }
}

/// The cache after a sequence of requests on one thread, each feeding back
/// the outcome of whatever attach call it made (unused when the cache was
/// already filled).
pub open spec fn run_attach_trace(c: Option<EnvHandle>, os: Seq<AttachOutcome>) -> Option<
    EnvHandle,
>
    decreases os.len(),
{
    if os.len() == 0 {
        c
    } else {
        run_attach_trace(attach_next(c, os[0]), os.drop_first())
    }
}

/// How many of the requests invoked the attach operation.
pub open spec fn attaches_invoked(c: Option<EnvHandle>, os: Seq<AttachOutcome>) -> nat
    decreases os.len(),
{
    if os.len() == 0 {
        0
    } else {
        (if invokes_attach(c) {
            1nat
        } else {
            0nat
        }) + attaches_invoked(attach_next(c, os[0]), os.drop_first())
    }
}

/// A filled cell is final: later requests return the identical handle and
/// never invoke the attach operation again.
pub proof fn lemma_attached_is_stable(c: Option<EnvHandle>, os: Seq<AttachOutcome>)
    requires
        c is Some,
    ensures
        run_attach_trace(c, os) == c,
        attaches_invoked(c, os) == 0,
    decreases os.len(),
{
    if os.len() > 0 {
        lemma_attached_is_stable(attach_next(c, os[0]), os.drop_first());
    }
}

/// Idempotent attachment. For any sequence of requests on a thread whose
/// first attach call succeeds, the attach operation is invoked exactly
/// once, and every request afterwards observes the one cached interface
/// that call produced.
pub proof fn lemma_attach_once(os: Seq<AttachOutcome>)
    requires
        os.len() > 0,
        os[0].code == JNI_OK,
        os[0].env != 0,
    ensures
        attaches_invoked(None, os) == 1,
        run_attach_trace(None, os) == Some(EnvHandle { raw: os[0].env }),
{
    let c1 = attach_next(None, os[0]);
    lemma_attached_is_stable(c1, os.drop_first());
}

} // verus!
