use vstd::prelude::*;

use crate::errors::{RefError, RuntimeError};
use crate::handle::{NativeHandle, RefKind};
use crate::runtime::{EnvContext, RefEntry, Runtime, RuntimeView};

verus! {

/// Refcounted record of one promoted global reference.  The registry owns
/// exactly one record per promotion; `DetachedGlobalRef` and
/// `AttachedGlobalRef` tokens hold shares of it.  The count starts at 1 and,
/// once it reaches zero, the underlying global handle has been deleted and is
/// never touched again.
#[derive(Clone, Copy, Debug, PartialEq, Eq, Structural)]
pub struct ReferenceRecord {
    pub handle: NativeHandle,
    pub count: u64,
}

/// The process-wide table of reference records.  It is the single place where
/// the shared counts live; every clone and release of a global-reference
/// token goes through it, so the conservation law is checked against one
/// explicit state.
pub struct RefRegistry {
    records: Vec<ReferenceRecord>,
}

impl View for RefRegistry {
    type V = Seq<ReferenceRecord>;

    closed spec fn view(&self) -> Seq<ReferenceRecord> {
        self.records@
    }
}

/// Well-formedness of a registry against a runtime state: every record holds
/// a global handle inside the table, records never share a slot, and — the
/// conservation invariant — a record's slot is live exactly while its count
/// is positive.
pub open spec fn registry_wf(reg: Seq<ReferenceRecord>, rt: RuntimeView) -> bool {
    &&& forall|i: int|
        0 <= i < reg.len() ==> (#[trigger] reg[i]).handle.kind == RefKind::Global
            && reg[i].handle.raw < rt.refs.len() && rt.refs[reg[i].handle.raw as int].kind
            == RefKind::Global
    &&& forall|i: int|
        0 <= i < reg.len() ==> ((#[trigger] reg[i]).count > 0 <==> rt.refs[reg[i].handle.raw as int].live)
    &&& forall|i: int, j: int|
        0 <= i < reg.len() && 0 <= j < reg.len() && i != j ==> (#[trigger] reg[i]).handle.raw != (
        #[trigger] reg[j]).handle.raw
}

/// The registry with record `i`'s count set to `c` and all else unchanged.
pub open spec fn with_count(reg: Seq<ReferenceRecord>, i: int, c: u64) -> Seq<ReferenceRecord> {
    reg.update(i, (ReferenceRecord { handle: reg[i].handle, count: c }))
}

/// Thread-agnostic share of a reference record: a pure ownership token.  It
/// never performs runtime calls itself — it may be held, cloned and handed
/// to any thread, attached or not, and must be attached before the handle it
/// guards can be used.
#[derive(Debug)]
pub struct DetachedGlobalRef {
    record: usize,
}

/// A share of a reference record materialized against an attached thread's
/// context: the form in which the underlying handle may be read and used in
/// runtime calls.
#[derive(Debug)]
pub struct AttachedGlobalRef {
    record: usize,
    thread: usize,
}

impl DetachedGlobalRef {
    /// Which record this token holds a share of.
    pub closed spec fn id(self) -> int {
        self.record as int
    }

    /// The token names a record of the registry and holds one of its shares.
    pub open spec fn valid(self, reg: Seq<ReferenceRecord>) -> bool {
        0 <= self.id() < reg.len() && reg[self.id()].count >= 1
    }

    /// Mathematical counterpart of `attach`.
    pub closed spec fn attach_spec(self, t: usize) -> AttachedGlobalRef {
        AttachedGlobalRef { record: self.record, thread: t }
    }

    /// Materializes the share against an attached thread's context.  A view
    /// change only: the count is untouched.
    pub fn attach(self, rt: &Runtime, env: &EnvContext) -> (r: AttachedGlobalRef)
        requires
            rt@.is_attached(env.thread as int),
        ensures
            r == self.attach_spec(env.thread),
            r.id() == self.id(),
            r.thread_id() == env.thread,
    {
        AttachedGlobalRef { record: self.record, thread: env.thread }
    }

    /// A new share of the same record: the count goes up by one and nothing
    /// else in the registry or the runtime changes.
    pub fn clone_ref(&self, reg: &mut RefRegistry, rt: &Runtime) -> (r: DetachedGlobalRef)
        requires
            self.valid(old(reg)@),
            registry_wf(old(reg)@, rt@),
            old(reg)@[self.id()].count < u64::MAX,
        ensures
            r.id() == self.id(),
            final(reg)@ == with_count(
                old(reg)@,
                self.id(),
                (old(reg)@[self.id()].count + 1) as u64,
            ),
            registry_wf(final(reg)@, rt@),
            self.valid(final(reg)@),
            r.valid(final(reg)@),
    {
        let rec = reg.records[self.record];
        reg.records[self.record] = ReferenceRecord { handle: rec.handle, count: rec.count + 1 };
        DetachedGlobalRef { record: self.record }
    }

    /// Gives up this share.  With more shares outstanding the count only goes
    /// down.  When this was the last share the underlying global handle must
    /// be deleted, which is legal only from an attached thread: given one,
    /// the handle's slot dies with the count; given none, nothing changes and
    /// the token comes back with `ReleaseOnDetachedThread` — the caller still
    /// owns the share, so nothing leaks and nothing is deleted twice.
    pub fn release(self, reg: &mut RefRegistry, rt: &mut Runtime, env: Option<&EnvContext>) -> (r:
        Result<u64, (DetachedGlobalRef, RefError)>)
        requires
            self.valid(old(reg)@),
            registry_wf(old(reg)@, old(rt)@),
            old(rt)@.wf(),
            env matches Some(e) ==> old(rt)@.is_attached(e.thread as int),
        ensures
            final(rt)@.wf(),
            registry_wf(final(reg)@, final(rt)@),
            old(reg)@[self.id()].count > 1 ==> (r matches Ok(n) && n as int == old(reg)@[self.id()].count
                - 1 && final(reg)@ == with_count(
                old(reg)@,
                self.id(),
                (old(reg)@[self.id()].count - 1) as u64,
            ) && final(rt)@ == old(rt)@),
            old(reg)@[self.id()].count == 1 && env is Some ==> (r matches Ok(n) && n == 0
                && final(reg)@ == with_count(old(reg)@, self.id(), 0) && final(rt)@
                == (RuntimeView {
                refs: old(rt)@.refs.update(
                    old(reg)@[self.id()].handle.raw as int,
                    (RefEntry {
                        live: false,
                        ..old(rt)@.refs[old(reg)@[self.id()].handle.raw as int]
                    }),
                ),
                ..old(rt)@
            })),
            old(reg)@[self.id()].count == 1 && env is None ==> (r matches Err(p) && p.0 == self
                && p.1 == RefError::ReleaseOnDetachedThread && final(reg)@ == old(reg)@
                && final(rt)@ == old(rt)@),
    {
        let rec = reg.records[self.record];
        if rec.count > 1 {
            reg.records[self.record] = ReferenceRecord {
                handle: rec.handle,
                count: rec.count - 1,
            };
            Ok(rec.count - 1)
        } else {
            match env {
                Some(e) => {
                    let res = rt.delete_global_ref(e, rec.handle);
                    proof {
                        assert(old(rt)@.live(rec.handle));
                        assert(res is Ok);
                    }
                    reg.records[self.record] = ReferenceRecord { handle: rec.handle, count: 0 };
                    proof {
                        let pre_reg = old(reg)@;
                        let pre_rt = old(rt)@;
                        assert(final(reg)@ =~= with_count(pre_reg, self.id(), 0));
                        assert(registry_wf(final(reg)@, final(rt)@)) by {
                            assert(forall|i: int|
                                0 <= i < pre_reg.len() && i != self.id()
                                    ==> (#[trigger] pre_reg[i]).handle.raw != pre_reg[self.id()].handle.raw);
                        }
                    }
                    Ok(0)
                },
                None => Err((self, RefError::ReleaseOnDetachedThread)),
            }
        }
    }
}

impl AttachedGlobalRef {
    /// Which record this token holds a share of.
    pub closed spec fn id(self) -> int {
        self.record as int
    }

    /// The thread context this share was materialized against.
    pub closed spec fn thread_id(self) -> usize {
        self.thread
    }

    /// The token names a record of the registry and holds one of its shares.
    pub open spec fn valid(self, reg: Seq<ReferenceRecord>) -> bool {
        0 <= self.id() < reg.len() && reg[self.id()].count >= 1
    }

    /// Mathematical counterpart of `detach`.
    pub closed spec fn detach_spec(self) -> DetachedGlobalRef {
        DetachedGlobalRef { record: self.record }
    }

    /// Back to the thread-agnostic form, usable by any thread.  A view
    /// change only: the count is untouched.
    pub fn detach(self) -> (r: DetachedGlobalRef)
        ensures
            r == self.detach_spec(),
            r.id() == self.id(),
    {
        DetachedGlobalRef { record: self.record }
    }

    /// The underlying global handle, for use in runtime calls.  Only the
    /// attached form exposes it; a detached share guards it without touching
    /// it.
    pub fn as_raw(&self, reg: &RefRegistry) -> (h: NativeHandle)
        requires
            self.valid(reg@),
        ensures
            h == reg@[self.id()].handle,
    {
        reg.records[self.record].handle
    }

    /// A new share of the same record, in attached form, against the same
    /// thread context.  Works exactly as the detached clone: count up by one.
    pub fn clone_ref(&self, reg: &mut RefRegistry, rt: &Runtime) -> (r: AttachedGlobalRef)
        requires
            self.valid(old(reg)@),
            registry_wf(old(reg)@, rt@),
            old(reg)@[self.id()].count < u64::MAX,
        ensures
            r.id() == self.id(),
            r.thread_id() == self.thread_id(),
            final(reg)@ == with_count(
                old(reg)@,
                self.id(),
                (old(reg)@[self.id()].count + 1) as u64,
            ),
            registry_wf(final(reg)@, rt@),
            self.valid(final(reg)@),
            r.valid(final(reg)@),
    {
        let rec = reg.records[self.record];
        reg.records[self.record] = ReferenceRecord { handle: rec.handle, count: rec.count + 1 };
        AttachedGlobalRef { record: self.record, thread: self.thread }
    }

    /// Gives up this share.  The attached form always carries an attached
    /// context, so release never fails: deletion, when the count reaches
    /// zero, is performed at once.  Hands back the remaining count.
    pub fn release(self, reg: &mut RefRegistry, rt: &mut Runtime, env: &EnvContext) -> (r: u64)
        requires
            self.valid(old(reg)@),
            registry_wf(old(reg)@, old(rt)@),
            old(rt)@.wf(),
            old(rt)@.is_attached(env.thread as int),
        ensures
            final(rt)@.wf(),
            registry_wf(final(reg)@, final(rt)@),
            r as int == old(reg)@[self.id()].count - 1,
            final(reg)@ == with_count(old(reg)@, self.id(), (old(reg)@[self.id()].count - 1) as u64),
            old(reg)@[self.id()].count > 1 ==> final(rt)@ == old(rt)@,
            old(reg)@[self.id()].count == 1 ==> final(rt)@ == (RuntimeView {
                refs: old(rt)@.refs.update(
                    old(reg)@[self.id()].handle.raw as int,
                    (RefEntry {
                        live: false,
                        ..old(rt)@.refs[old(reg)@[self.id()].handle.raw as int]
                    }),
                ),
                ..old(rt)@
            }),
    {
        let d = self.detach();
        match d.release(reg, rt, Some(env)) {
            Ok(n) => n,
            Err(_) => {
                proof {
                    assert(false);
                }
                0
            },
        }
    }
}

/// Attach/detach round trip: materializing a share against a thread context
/// and detaching it again — any number of times, against any contexts —
/// always yields a share of the same record, hence of the same underlying
/// handle and object.
pub proof fn lemma_attach_detach_round_trip(d: DetachedGlobalRef, t1: usize, t2: usize)
    ensures
        d.attach_spec(t1).detach_spec() == d,
        d.attach_spec(t1).detach_spec().attach_spec(t2).detach_spec() == d,
        d.attach_spec(t1).id() == d.id(),
        d.attach_spec(t1).detach_spec().attach_spec(t2).id() == d.id(),
{
}

impl RefRegistry {
    /// An empty registry, well-formed against any runtime state.
    pub fn new() -> (r: RefRegistry)
        ensures
            r@.len() == 0,
            forall|rt: RuntimeView| registry_wf(r@, rt),
    {
        RefRegistry { records: Vec::new() }
    }

    /// Promotes a usable reference into a fresh refcounted global reference:
    /// the runtime hands out a new global handle to the same target, and a
    /// record with count 1 is added for it.  The share comes back in
    /// detached, thread-agnostic form.
    pub fn promote(&mut self, rt: &mut Runtime, env: &EnvContext, src: &NativeHandle) -> (r: Result<
        DetachedGlobalRef,
        RuntimeError,
    >)
        requires
            registry_wf(old(self)@, old(rt)@),
            old(rt)@.wf(),
            old(rt)@.is_attached(env.thread as int),
        ensures
            final(rt)@.wf(),
            registry_wf(final(self)@, final(rt)@),
            if old(rt)@.usable(*src, env.thread as int) {
                r matches Ok(d) && d.id() == old(self)@.len() && d.valid(final(self)@) && ({
                    let g = final(self)@[old(self)@.len() as int];
                    &&& g.count == 1
                    &&& g.handle.kind == RefKind::Global
                    &&& g.handle.raw == old(rt)@.refs.len()
                    &&& final(self)@ == old(self)@.push(g)
                    &&& final(rt)@ == (RuntimeView {
                        refs: old(rt)@.refs.push(
                            (RefEntry {
                                kind: RefKind::Global,
                                target: old(rt)@.target_of(*src),
                                live: true,
                                owner: env.thread,
                            }),
                        ),
                        ..old(rt)@
                    })
                })
            } else {
                r == Err::<DetachedGlobalRef, RuntimeError>(RuntimeError::InvalidHandle)
                    && final(self)@ == old(self)@ && final(rt)@ == old(rt)@
            },
    {
        let g = match rt.new_global_ref(env, src) {
            Ok(g) => g,
            Err(e) => {
                return Err(e);
            },
        };
        let id = self.records.len();
        self.records.push(ReferenceRecord { handle: g, count: 1 });
        proof {
            let pre_reg = old(self)@;
            let pre_rt = old(rt)@;
            assert(final(self)@ =~= pre_reg.push(final(self)@[pre_reg.len() as int]));
            assert(registry_wf(final(self)@, final(rt)@)) by {
                assert(forall|i: int|
                    0 <= i < pre_reg.len() ==> (#[trigger] pre_reg[i]).handle.raw
                        < pre_rt.refs.len());
                assert(forall|i: int|
                    0 <= i < pre_reg.len() ==> final(self)@[i] == pre_reg[i]);
                assert(forall|i: int|
                    0 <= i < pre_reg.len() ==> final(rt)@.refs[(#[trigger] pre_reg[i]).handle.raw as int]
                        == pre_rt.refs[pre_reg[i].handle.raw as int]);
            }
        }
        Ok(DetachedGlobalRef { record: id })
    }

    /// Promotes and materializes in one step, handing the new share back
    /// already attached to the calling thread's context.
    pub fn promote_attached(&mut self, rt: &mut Runtime, env: &EnvContext, src: &NativeHandle) -> (r:
        Result<AttachedGlobalRef, RuntimeError>)
        requires
            registry_wf(old(self)@, old(rt)@),
            old(rt)@.wf(),
            old(rt)@.is_attached(env.thread as int),
        ensures
            final(rt)@.wf(),
            registry_wf(final(self)@, final(rt)@),
            if old(rt)@.usable(*src, env.thread as int) {
                r matches Ok(a) && a.id() == old(self)@.len() && a.thread_id() == env.thread
                    && a.valid(final(self)@) && ({
                    let g = final(self)@[old(self)@.len() as int];
                    &&& g.count == 1
                    &&& g.handle.kind == RefKind::Global
                    &&& g.handle.raw == old(rt)@.refs.len()
                    &&& final(self)@ == old(self)@.push(g)
                    &&& final(rt)@ == (RuntimeView {
                        refs: old(rt)@.refs.push(
                            (RefEntry {
                                kind: RefKind::Global,
                                target: old(rt)@.target_of(*src),
                                live: true,
                                owner: env.thread,
                            }),
                        ),
                        ..old(rt)@
                    })
                })
            } else {
                r == Err::<AttachedGlobalRef, RuntimeError>(RuntimeError::InvalidHandle)
                    && final(self)@ == old(self)@ && final(rt)@ == old(rt)@
            },
    {
        match self.promote(rt, env, src) {
            Ok(d) => Ok(d.attach(rt, env)),
            Err(e) => Err(e),
        }
    }
}

} // verus!
