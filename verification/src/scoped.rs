use vstd::prelude::*;

use crate::errors::RuntimeError;
use crate::handle::{NativeHandle, RefKind};
use crate::runtime::{EnvContext, RefEntry, Runtime, RuntimeView};

verus! {

/// Exclusive owner of one local-kind reference, tied to the scope of the
/// thread context that created it.  `release` consumes the owner, so a
/// second release does not merely do nothing — it cannot be written.  Should
/// the owner be dropped without releasing, the reference still dies with its
/// thread's scope when that thread detaches.
#[derive(Debug)]
pub struct ScopedLocalRef {
    raw: usize,
    thread: usize,
}

impl ScopedLocalRef {
    /// The raw slot of the owned handle.
    pub closed spec fn raw(self) -> usize {
        self.raw
    }

    /// The thread whose scope the reference belongs to.
    pub closed spec fn thread_id(self) -> usize {
        self.thread
    }

    /// Takes ownership of a local handle for the scope of `env`'s thread.
    /// From here on the wrapper is the reference's only legitimate user.
    pub fn new(env: &EnvContext, handle: NativeHandle) -> (s: ScopedLocalRef)
        requires
            handle.kind == RefKind::Local,
        ensures
            s.raw() == handle.raw,
            s.thread_id() == env.thread,
    {
        ScopedLocalRef { raw: handle.raw, thread: env.thread }
    }

    /// Borrows the owned handle for immediate use in a runtime call, without
    /// giving up ownership.
    pub fn as_raw(&self) -> (h: NativeHandle)
        ensures
            h.raw == self.raw(),
            h.kind == RefKind::Local,
    {
        NativeHandle { raw: self.raw, kind: RefKind::Local }
    }

    /// Releases the owned reference: its slot dies and the wrapper is
    /// consumed.  Fails — changing nothing — only when the reference already
    /// died with a detached scope or `env` belongs to another thread.
    pub fn release(self, rt: &mut Runtime, env: &EnvContext) -> (r: Result<(), RuntimeError>)
        requires
            old(rt)@.wf(),
            old(rt)@.is_attached(env.thread as int),
        ensures
            final(rt)@.wf(),
            if old(rt)@.usable(
                (NativeHandle { raw: self.raw(), kind: RefKind::Local }),
                env.thread as int,
            ) {
                r == Ok::<(), RuntimeError>(()) && final(rt)@ == (RuntimeView {
                    refs: old(rt)@.refs.update(
                        self.raw() as int,
                        (RefEntry { live: false, ..old(rt)@.refs[self.raw() as int] }),
                    ),
                    ..old(rt)@
                })
            } else {
                r == Err::<(), RuntimeError>(RuntimeError::InvalidHandle) && final(rt)@ == old(rt)@
            },
    {
        rt.delete_local_ref(env, NativeHandle { raw: self.raw, kind: RefKind::Local })
    }
}

} // verus!
