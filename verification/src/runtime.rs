use vstd::prelude::*;

use crate::errors::{AttachError, LookupError, RuntimeError};
use crate::handle::{ClassHandle, NativeHandle, RefKind};

verus! {

/// What a reference slot points at: a class object (by class id) or an
/// ordinary instance (by object id).
#[derive(Clone, Copy, Debug, PartialEq, Eq, Structural)]
pub enum RefTarget {
    ToClass(usize),
    ToInstance(usize),
}

/// One slot of the runtime's reference table.  Slots are never reused: a
/// deleted reference leaves a dead slot behind, so a stale handle is detected
/// instead of aliasing a newer reference.
#[derive(Clone, Copy, Debug, PartialEq, Eq, Structural)]
pub struct RefEntry {
    pub kind: RefKind,
    pub target: RefTarget,
    pub live: bool,
    /// Creating thread; meaningful for `Local` slots only.
    pub owner: usize,
}

/// One object of the runtime's heap.  The model gives every instance a single
/// observable piece of state, an integer counter with wrap-around arithmetic,
/// standing in for whatever methods the real object would offer.
#[derive(Clone, Copy, Debug, PartialEq, Eq, Structural)]
pub struct ObjectEntry {
    pub class: usize,
    pub counter: i32,
}

/// Mathematical state of the modeled runtime.
pub struct RuntimeView {
    /// Names of the loaded classes; the index is the class id.
    pub classes: Seq<Seq<char>>,
    /// The heap; the index is the object id.
    pub objects: Seq<ObjectEntry>,
    /// The reference table; a handle's `raw` field indexes it.
    pub refs: Seq<RefEntry>,
    /// Ids of the threads currently attached.
    pub attached: Set<int>,
    /// Whether an exception is pending.
    pub pending: bool,
}

impl RuntimeView {
    /// Class names are unique and every slot or object points inside the
    /// tables.
    pub open spec fn wf(self) -> bool {
        &&& forall|i: int, j: int|
            0 <= i < self.classes.len() && 0 <= j < self.classes.len() && i != j
                ==> self.classes[i] !== self.classes[j]
        &&& forall|o: int|
            0 <= o < self.objects.len() ==> (#[trigger] self.objects[o]).class < self.classes.len()
        &&& forall|r: int|
            0 <= r < self.refs.len() ==> self.target_ok((#[trigger] self.refs[r]).target)
    }

    pub open spec fn target_ok(self, t: RefTarget) -> bool {
        match t {
            RefTarget::ToClass(c) => c < self.classes.len(),
            RefTarget::ToInstance(o) => o < self.objects.len(),
        }
    }

    pub open spec fn has_class(self, name: Seq<char>) -> bool {
        exists|i: int| 0 <= i < self.classes.len() && self.classes[i] == name
    }

    /// The id of the class of that name (classes are unique by `wf`).
    pub open spec fn class_index(self, name: Seq<char>) -> int {
        choose|i: int| 0 <= i < self.classes.len() && self.classes[i] == name
    }

    pub open spec fn is_attached(self, t: int) -> bool {
        self.attached.contains(t)
    }

    /// The handle denotes a slot of the table and its kind tag agrees with
    /// the slot.
    pub open spec fn ref_ok(self, h: NativeHandle) -> bool {
        h.raw < self.refs.len() && self.refs[h.raw as int].kind == h.kind
    }

    pub open spec fn live(self, h: NativeHandle) -> bool {
        self.ref_ok(h) && self.refs[h.raw as int].live
    }

    /// The handle may be used by thread `t`: it is live, and a local handle
    /// additionally belongs to `t`.
    pub open spec fn usable(self, h: NativeHandle, t: int) -> bool {
        self.live(h) && (h.kind == RefKind::Local ==> self.refs[h.raw as int].owner == t)
    }

    pub open spec fn target_of(self, h: NativeHandle) -> RefTarget {
        self.refs[h.raw as int].target
    }

    /// Class id of the instance a handle points at (meaningful when the
    /// target is an instance).
    pub open spec fn class_of_instance(self, h: NativeHandle) -> usize {
        self.objects[self.target_of(h)->ToInstance_0 as int].class
    }

    /// Counter value of the instance a handle points at.
    pub open spec fn counter_of(self, h: NativeHandle) -> int {
        self.objects[self.target_of(h)->ToInstance_0 as int].counter as int
    }
}

/// Capability token recording that a thread was attached.  Obtaining one is
/// the only way to perform reference operations; every operation that needs
/// the runtime takes one and requires that the attachment still holds (the
/// token itself is plain data and may outlive the attachment).
#[derive(Clone, Copy, Debug, PartialEq, Eq, Structural)]
pub struct EnvContext {
    pub thread: usize,
}

/// Executable model of the runtime collaborator: class lookup, reference
/// creation and deletion, per-thread attachment and pending-exception state.
/// All operations are serialized through `&mut self`; the contracts state
/// exactly which part of the state each operation may touch.
pub struct Runtime {
    classes: Vec<String>,
    objects: Vec<ObjectEntry>,
    refs: Vec<RefEntry>,
    attached: Vec<bool>,
    pending: bool,
}

impl View for Runtime {
    type V = RuntimeView;

    closed spec fn view(&self) -> RuntimeView {
        RuntimeView {
            classes: self.classes@.map_values(|s: String| s@),
            objects: self.objects@,
            refs: self.refs@,
            attached: Set::new(
                |t: int| 0 <= t < self.attached@.len() && self.attached@[t],
            ),
            pending: self.pending,
        }
    }
}

impl Runtime {
    /// A fresh runtime: no classes, no objects, no references, no thread
    /// attached, no pending exception.
    pub fn new() -> (rt: Runtime)
        ensures
            rt@.wf(),
            rt@.classes.len() == 0,
            rt@.objects.len() == 0,
            rt@.refs.len() == 0,
            rt@.attached =~= Set::<int>::empty(),
            !rt@.pending,
    {
        let rt = Runtime {
            classes: Vec::new(),
            objects: Vec::new(),
            refs: Vec::new(),
            attached: Vec::new(),
            pending: false,
        };
        proof {
            assert(rt@.attached =~= Set::<int>::empty());
        }
        rt
    }

    /// Loads a class into the runtime's class table, standing for whatever
    /// classes the runtime's loader can provide.  Loading the same name twice
    /// leaves the table unchanged and returns the existing id.
    pub fn register_class(&mut self, name: String) -> (id: usize)
        requires
            old(self)@.wf(),
        ensures
            final(self)@.wf(),
            final(self)@.has_class(name@),
            id == final(self)@.class_index(name@),
            old(self)@.has_class(name@) ==> final(self)@ == old(self)@,
            !old(self)@.has_class(name@) ==> final(self)@ == (RuntimeView {
                classes: old(self)@.classes.push(name@),
                ..old(self)@
            }),
    {
        let n = self.classes.len();
        let mut i: usize = 0;
        while i < n
            invariant
                n == self.classes.len(),
                i <= n,
                self@.classes.len() == n,
                forall|j: int| 0 <= j < i ==> self@.classes[j] !== name@,
                self@.wf(),
                forall|j: int|
                    0 <= j < n ==> self@.classes[j] == (#[trigger] self.classes@[j])@,
            decreases n - i,
        {
            if self.classes[i] == name {
                proof {
                    assert(self@.classes[i as int] == name@);
                    assert(self@.has_class(name@));
                    assert(self@.class_index(name@) == i as int) by {
                        let w = self@.class_index(name@);
                        assert(0 <= w < self@.classes.len() && self@.classes[w] == name@);
                    }
                }
                return i;
            }
            i += 1;
        }
        let ghost pre = self@;
        self.classes.push(name);
        proof {
            assert(self@.classes =~= pre.classes.push(name@));
            assert(self@ == (RuntimeView { classes: pre.classes.push(name@), ..pre }));
            assert(self@.classes[n as int] == name@);
            assert(self@.has_class(name@));
            assert(self@.class_index(name@) == n as int) by {
                let w = self@.class_index(name@);
                assert(0 <= w < self@.classes.len() && self@.classes[w] == name@);
                assert(forall|j: int| 0 <= j < n ==> self@.classes[j] !== name@);
            }
        }
        n
    }

    /// Registers thread `thread` with the runtime and hands back its
    /// capability token.  Attaching an already attached thread is refused, so
    /// at most one token per thread is ever live.  Nothing but the attachment
    /// set changes.
    pub fn attach_current_thread(&mut self, thread: usize) -> (r: Result<
        EnvContext,
        AttachError,
    >)
        requires
            old(self)@.wf(),
        ensures
            final(self)@.wf(),
            old(self)@.is_attached(thread as int) ==> r == Err::<EnvContext, AttachError>(
                AttachError::AlreadyAttached,
            ) && final(self)@ == old(self)@,
            !old(self)@.is_attached(thread as int) ==> (r matches Ok(env) && env.thread == thread
                && final(self)@ == (RuntimeView {
                attached: old(self)@.attached.insert(thread as int),
                ..old(self)@
            })),
    {
        let ghost pre = self@;
        while self.attached.len() <= thread
            invariant
                self.classes == old(self).classes,
                self.objects == old(self).objects,
                self.refs == old(self).refs,
                self.pending == old(self).pending,
                self@.attached =~= pre.attached,
                forall|j: int|
                    0 <= j < self.attached@.len() ==> (#[trigger] self.attached@[j] ==> pre.attached.contains(j)),
            decreases thread + 1 - self.attached.len(),
        {
            self.attached.push(false);
            proof {
                assert(self@.attached =~= pre.attached);
            }
        }
        proof {
            assert(self@ == pre) by {
                assert(self@.classes =~= pre.classes);
                assert(self@.attached =~= pre.attached);
            }
        }
        if self.attached[thread] {
            Err(AttachError::AlreadyAttached)
        } else {
            self.attached[thread] = true;
            proof {
                assert(self@.attached =~= pre.attached.insert(thread as int));
                assert(self@ == (RuntimeView {
                    attached: pre.attached.insert(thread as int),
                    ..pre
                })) by {
                    assert(self@.classes =~= pre.classes);
                }
            }
            Ok(EnvContext { thread })
        }
    }

    /// Deregisters the thread behind `env`.  All local references that thread
    /// still owns die with its scope; global references are untouched.  A
    /// stale token (the thread detached already) is reported, not ignored.
    pub fn detach_current_thread(&mut self, env: EnvContext) -> (r: Result<(), AttachError>)
        requires
            old(self)@.wf(),
        ensures
            final(self)@.wf(),
            !old(self)@.is_attached(env.thread as int) ==> r == Err::<(), AttachError>(
                AttachError::NotAttached,
            ) && final(self)@ == old(self)@,
            old(self)@.is_attached(env.thread as int) ==> r == Ok::<(), AttachError>(())
                && final(self)@ == (RuntimeView {
                attached: old(self)@.attached.remove(env.thread as int),
                refs: old(self)@.refs.map(
                    |i: int, e: RefEntry| scope_exit(e, env.thread as int),
                ),
                ..old(self)@
            }),
    {
        let t = env.thread;
        if t >= self.attached.len() || !self.attached[t] {
            return Err(AttachError::NotAttached);
        }
        let ghost pre = self@;
        let n = self.refs.len();
        let mut i: usize = 0;
        while i < n
            invariant
                n == self.refs.len(),
                i <= n,
                t < self.attached.len(),
                self.classes == old(self).classes,
                self.objects == old(self).objects,
                self.attached == old(self).attached,
                self.pending == old(self).pending,
                pre == old(self)@,
                forall|j: int| 0 <= j < i ==> self.refs@[j] == scope_exit(pre.refs[j], t as int),
                forall|j: int| i <= j < n ==> self.refs@[j] == pre.refs[j],
            decreases n - i,
        {
            let e = self.refs[i];
            if matches!(e.kind, RefKind::Local) && e.owner == t {
                self.refs[i] = RefEntry { live: false, ..e };
            }
            i += 1;
        }
        self.attached[t] = false;
        proof {
            assert(self@.refs =~= pre.refs.map(|i: int, e: RefEntry| scope_exit(e, t as int)));
            assert(self@.attached =~= pre.attached.remove(t as int));
            assert(self@ == (RuntimeView {
                attached: pre.attached.remove(t as int),
                refs: pre.refs.map(|i: int, e: RefEntry| scope_exit(e, t as int)),
                ..pre
            })) by {
                assert(self@.classes =~= pre.classes);
            }
            assert(final(self)@.wf()) by {
                assert(forall|r: int|
                    0 <= r < self@.refs.len()
                        ==> (#[trigger] self@.refs[r]).target == pre.refs[r].target);
            }
        }
        Ok(())
    }

    /// Finds the class of that name and hands back a fresh local reference to
    /// its class object.  Succeeds if and only if the name is loaded; on
    /// failure nothing at all changes.
    pub fn find_class(&mut self, env: &EnvContext, name: &String) -> (r: Result<
        ClassHandle,
        LookupError,
    >)
        requires
            old(self)@.wf(),
            old(self)@.is_attached(env.thread as int),
        ensures
            final(self)@.wf(),
            if old(self)@.has_class(name@) {
                r matches Ok(ch) && ch.handle.kind == RefKind::Local && ch.handle.raw
                    == old(self)@.refs.len() && final(self)@ == (RuntimeView {
                    refs: old(self)@.refs.push(
                        (RefEntry {
                            kind: RefKind::Local,
                            target: RefTarget::ToClass(
                                old(self)@.class_index(name@) as usize,
                            ),
                            live: true,
                            owner: env.thread,
                        }),
                    ),
                    ..old(self)@
                })
            } else {
                r == Err::<ClassHandle, LookupError>(LookupError::ClassNotFound) && final(self)@
                    == old(self)@
            },
    {
        let n = self.classes.len();
        let mut i: usize = 0;
        while i < n
            invariant
                n == self.classes.len(),
                i <= n,
                self@ == old(self)@,
                self@.wf(),
                forall|j: int| 0 <= j < i ==> self@.classes[j] !== name@,
                forall|j: int|
                    0 <= j < n ==> self@.classes[j] == (#[trigger] self.classes@[j])@,
            decreases n - i,
        {
            if self.classes[i] == *name {
                proof {
                    assert(self@.classes[i as int] == name@);
                    assert(self@.has_class(name@));
                    assert(self@.class_index(name@) == i as int) by {
                        let w = self@.class_index(name@);
                        assert(0 <= w < self@.classes.len() && self@.classes[w] == name@);
                    }
                }
                let ghost pre = self@;
                let raw = self.refs.len();
                let entry = RefEntry {
                    kind: RefKind::Local,
                    target: RefTarget::ToClass(i),
                    live: true,
                    owner: env.thread,
                };
                self.refs.push(entry);
                proof {
                    assert(self@ == (RuntimeView { refs: pre.refs.push(entry), ..pre })) by {
                        assert(self@.classes =~= pre.classes);
                        assert(self@.attached =~= pre.attached);
                    }
                }
                return Ok(ClassHandle { handle: NativeHandle { raw, kind: RefKind::Local } });
            }
            i += 1;
        }
        proof {
            assert(!self@.has_class(name@));
        }
        Err(LookupError::ClassNotFound)
    }

    /// Hands back a fresh local reference to the class object of the instance
    /// `h` points at.  Fails, changing nothing, when `h` is dead, foreign to
    /// the calling thread, or does not point at an instance.
    pub fn get_object_class(&mut self, env: &EnvContext, h: &NativeHandle) -> (r: Result<
        ClassHandle,
        LookupError,
    >)
        requires
            old(self)@.wf(),
            old(self)@.is_attached(env.thread as int),
        ensures
            final(self)@.wf(),
            if old(self)@.usable(*h, env.thread as int) && old(self)@.target_of(*h) is ToInstance {
                r matches Ok(ch) && ch.handle.kind == RefKind::Local && ch.handle.raw
                    == old(self)@.refs.len() && final(self)@ == (RuntimeView {
                    refs: old(self)@.refs.push(
                        (RefEntry {
                            kind: RefKind::Local,
                            target: RefTarget::ToClass(old(self)@.class_of_instance(*h)),
                            live: true,
                            owner: env.thread,
                        }),
                    ),
                    ..old(self)@
                })
            } else {
                r == Err::<ClassHandle, LookupError>(LookupError::InvalidReference) && final(self)@
                    == old(self)@
            },
    {
        if h.raw >= self.refs.len() {
            return Err(LookupError::InvalidReference);
        }
        let e = self.refs[h.raw];
        if !(e.kind == h.kind && e.live && (!matches!(h.kind, RefKind::Local) || e.owner
            == env.thread)) {
            return Err(LookupError::InvalidReference);
        }
        match e.target {
            RefTarget::ToInstance(o) => {
                let ghost pre = self@;
                let raw = self.refs.len();
                let entry = RefEntry {
                    kind: RefKind::Local,
                    target: RefTarget::ToClass(self.objects[o].class),
                    live: true,
                    owner: env.thread,
                };
                self.refs.push(entry);
                proof {
                    assert(self@ == (RuntimeView { refs: pre.refs.push(entry), ..pre })) by {
                        assert(self@.classes =~= pre.classes);
                        assert(self@.attached =~= pre.attached);
                    }
                }
                Ok(ClassHandle { handle: NativeHandle { raw, kind: RefKind::Local } })
            },
            RefTarget::ToClass(_) => Err(LookupError::InvalidReference),
        }
    }

    /// Creates a fresh instance of the given class, its counter starting at
    /// `init`, and hands back a local reference to it.  Refused while an
    /// exception is pending or when the class handle is dead or no class.
    pub fn new_object(&mut self, env: &EnvContext, class: &ClassHandle, init: i32) -> (r: Result<
        NativeHandle,
        RuntimeError,
    >)
        requires
            old(self)@.wf(),
            old(self)@.is_attached(env.thread as int),
        ensures
            final(self)@.wf(),
            old(self)@.pending ==> r == Err::<NativeHandle, RuntimeError>(
                RuntimeError::PendingException,
            ) && final(self)@ == old(self)@,
            !old(self)@.pending && !(old(self)@.usable(class.handle, env.thread as int) && old(
                self,
            )@.target_of(class.handle) is ToClass) ==> r == Err::<NativeHandle, RuntimeError>(
                RuntimeError::InvalidHandle,
            ) && final(self)@ == old(self)@,
            !old(self)@.pending && old(self)@.usable(class.handle, env.thread as int) && old(
                self,
            )@.target_of(class.handle) is ToClass ==> (r matches Ok(h) && h.kind == RefKind::Local
                && h.raw == old(self)@.refs.len() && final(self)@ == (RuntimeView {
                objects: old(self)@.objects.push(
                    (ObjectEntry {
                        class: old(self)@.target_of(class.handle)->ToClass_0,
                        counter: init,
                    }),
                ),
                refs: old(self)@.refs.push(
                    (RefEntry {
                        kind: RefKind::Local,
                        target: RefTarget::ToInstance(old(self)@.objects.len() as usize),
                        live: true,
                        owner: env.thread,
                    }),
                ),
                ..old(self)@
            })),
    {
        if self.pending {
            return Err(RuntimeError::PendingException);
        }
        let h = class.handle;
        if h.raw >= self.refs.len() {
            return Err(RuntimeError::InvalidHandle);
        }
        let e = self.refs[h.raw];
        if !(e.kind == h.kind && e.live && (!matches!(h.kind, RefKind::Local) || e.owner
            == env.thread)) {
            return Err(RuntimeError::InvalidHandle);
        }
        match e.target {
            RefTarget::ToClass(c) => {
                let ghost pre = self@;
                let oid = self.objects.len();
                self.objects.push(ObjectEntry { class: c, counter: init });
                let raw = self.refs.len();
                let entry = RefEntry {
                    kind: RefKind::Local,
                    target: RefTarget::ToInstance(oid),
                    live: true,
                    owner: env.thread,
                };
                self.refs.push(entry);
                proof {
                    assert(self@ == (RuntimeView {
                        objects: pre.objects.push(ObjectEntry { class: c, counter: init }),
                        refs: pre.refs.push(entry),
                        ..pre
                    })) by {
                        assert(self@.classes =~= pre.classes);
                        assert(self@.attached =~= pre.attached);
                    }
                }
                Ok(NativeHandle { raw, kind: RefKind::Local })
            },
            RefTarget::ToInstance(_) => Err(RuntimeError::InvalidHandle),
        }
    }

    /// Promotes any usable reference into a fresh global reference to the
    /// same target, valid across threads until deleted.
    pub fn new_global_ref(&mut self, env: &EnvContext, h: &NativeHandle) -> (r: Result<
        NativeHandle,
        RuntimeError,
    >)
        requires
            old(self)@.wf(),
            old(self)@.is_attached(env.thread as int),
        ensures
            final(self)@.wf(),
            if old(self)@.usable(*h, env.thread as int) {
                r matches Ok(g) && g.kind == RefKind::Global && g.raw == old(self)@.refs.len()
                    && final(self)@ == (RuntimeView {
                    refs: old(self)@.refs.push(
                        (RefEntry {
                            kind: RefKind::Global,
                            target: old(self)@.target_of(*h),
                            live: true,
                            owner: env.thread,
                        }),
                    ),
                    ..old(self)@
                })
            } else {
                r == Err::<NativeHandle, RuntimeError>(RuntimeError::InvalidHandle) && final(self)@
                    == old(self)@
            },
    {
        if h.raw >= self.refs.len() {
            return Err(RuntimeError::InvalidHandle);
        }
        let e = self.refs[h.raw];
        if !(e.kind == h.kind && e.live && (!matches!(h.kind, RefKind::Local) || e.owner
            == env.thread)) {
            return Err(RuntimeError::InvalidHandle);
        }
        let ghost pre = self@;
        let raw = self.refs.len();
        let entry = RefEntry {
            kind: RefKind::Global,
            target: e.target,
            live: true,
            owner: env.thread,
        };
        self.refs.push(entry);
        proof {
            assert(self@ == (RuntimeView { refs: pre.refs.push(entry), ..pre })) by {
                assert(self@.classes =~= pre.classes);
                assert(self@.attached =~= pre.attached);
            }
        }
        Ok(NativeHandle { raw, kind: RefKind::Global })
    }

    /// Deletes a live global reference; legal only from an attached thread.
    /// The slot dies and nothing else changes.
    pub fn delete_global_ref(&mut self, env: &EnvContext, h: NativeHandle) -> (r: Result<
        (),
        RuntimeError,
    >)
        requires
            old(self)@.wf(),
            old(self)@.is_attached(env.thread as int),
        ensures
            final(self)@.wf(),
            if h.kind == RefKind::Global && old(self)@.live(h) {
                r == Ok::<(), RuntimeError>(()) && final(self)@ == (RuntimeView {
                    refs: old(self)@.refs.update(
                        h.raw as int,
                        (RefEntry { live: false, ..old(self)@.refs[h.raw as int] }),
                    ),
                    ..old(self)@
                })
            } else {
                r == Err::<(), RuntimeError>(RuntimeError::InvalidHandle) && final(self)@ == old(
                    self,
                )@
            },
    {
        self.kill_slot(h, RefKind::Global, env.thread, false)
    }

    /// Deletes a live local reference owned by the calling thread.
    pub fn delete_local_ref(&mut self, env: &EnvContext, h: NativeHandle) -> (r: Result<
        (),
        RuntimeError,
    >)
        requires
            old(self)@.wf(),
            old(self)@.is_attached(env.thread as int),
        ensures
            final(self)@.wf(),
            if h.kind == RefKind::Local && old(self)@.usable(h, env.thread as int) {
                r == Ok::<(), RuntimeError>(()) && final(self)@ == (RuntimeView {
                    refs: old(self)@.refs.update(
                        h.raw as int,
                        (RefEntry { live: false, ..old(self)@.refs[h.raw as int] }),
                    ),
                    ..old(self)@
                })
            } else {
                r == Err::<(), RuntimeError>(RuntimeError::InvalidHandle) && final(self)@ == old(
                    self,
                )@
            },
    {
        self.kill_slot(h, RefKind::Local, env.thread, true)
    }

    /// Shared body of the two deletions: kills the slot `h` names when it is
    /// live, of kind `want`, and — when `check_owner` — owned by `thread`.
    fn kill_slot(&mut self, h: NativeHandle, want: RefKind, thread: usize, check_owner: bool) -> (r:
        Result<(), RuntimeError>)
        requires
            old(self)@.wf(),
        ensures
            final(self)@.wf(),
            if h.kind == want && old(self)@.live(h) && (check_owner ==> old(self)@.refs[h.raw as int].owner
                == thread) {
                r == Ok::<(), RuntimeError>(()) && final(self)@ == (RuntimeView {
                    refs: old(self)@.refs.update(
                        h.raw as int,
                        (RefEntry { live: false, ..old(self)@.refs[h.raw as int] }),
                    ),
                    ..old(self)@
                })
            } else {
                r == Err::<(), RuntimeError>(RuntimeError::InvalidHandle) && final(self)@ == old(
                    self,
                )@
            },
    {
        if h.raw >= self.refs.len() {
            return Err(RuntimeError::InvalidHandle);
        }
        let e = self.refs[h.raw];
        if !(e.kind == h.kind && e.kind == want && e.live && (!check_owner || e.owner == thread)) {
            return Err(RuntimeError::InvalidHandle);
        }
        let ghost pre = self@;
        self.refs[h.raw] = RefEntry { live: false, ..e };
        proof {
            assert(self@ == (RuntimeView {
                refs: pre.refs.update(h.raw as int, RefEntry { live: false, ..pre.refs[h.raw as int] }),
                ..pre
            })) by {
                assert(self@.classes =~= pre.classes);
                assert(self@.attached =~= pre.attached);
                assert(self@.refs =~= pre.refs.update(
                    h.raw as int,
                    RefEntry { live: false, ..pre.refs[h.raw as int] },
                ));
            }
        }
        Ok(())
    }

    /// Invokes the add-and-get operation of the counter instance `h` points
    /// at: the counter wraps around by two's complement, and the new value is
    /// handed back.  Refused while an exception is pending or when `h` is not
    /// a usable instance reference.
    pub fn counter_add_and_get(&mut self, env: &EnvContext, h: &NativeHandle, delta: i32) -> (r:
        Result<i32, RuntimeError>)
        requires
            old(self)@.wf(),
            old(self)@.is_attached(env.thread as int),
        ensures
            final(self)@.wf(),
            old(self)@.pending ==> r == Err::<i32, RuntimeError>(RuntimeError::PendingException)
                && final(self)@ == old(self)@,
            !old(self)@.pending && !(old(self)@.usable(*h, env.thread as int) && old(
                self,
            )@.target_of(*h) is ToInstance) ==> r == Err::<i32, RuntimeError>(
                RuntimeError::InvalidHandle,
            ) && final(self)@ == old(self)@,
            !old(self)@.pending && old(self)@.usable(*h, env.thread as int) && old(self)@.target_of(
                *h,
            ) is ToInstance ==> (r matches Ok(v) && v == vstd::wrapping::i32_specs::wrapping_add(
                old(self)@.objects[old(self)@.target_of(*h)->ToInstance_0 as int].counter,
                delta,
            ) && final(self)@ == (RuntimeView {
                objects: old(self)@.objects.update(
                    old(self)@.target_of(*h)->ToInstance_0 as int,
                    (ObjectEntry {
                        class: old(self)@.class_of_instance(*h),
                        counter: vstd::wrapping::i32_specs::wrapping_add(
                            old(self)@.objects[old(self)@.target_of(*h)->ToInstance_0 as int].counter,
                            delta,
                        ),
                    }),
                ),
                ..old(self)@
            })),
    {
        if self.pending {
            return Err(RuntimeError::PendingException);
        }
        if h.raw >= self.refs.len() {
            return Err(RuntimeError::InvalidHandle);
        }
        let e = self.refs[h.raw];
        if !(e.kind == h.kind && e.live && (!matches!(h.kind, RefKind::Local) || e.owner
            == env.thread)) {
            return Err(RuntimeError::InvalidHandle);
        }
        match e.target {
            RefTarget::ToInstance(o) => {
                let ghost pre = self@;
                let entry = self.objects[o];
                let v = entry.counter.wrapping_add(delta);
                self.objects[o] = ObjectEntry { class: entry.class, counter: v };
                proof {
                    assert(self@ == (RuntimeView {
                        objects: pre.objects.update(
                            o as int,
                            ObjectEntry { class: entry.class, counter: v },
                        ),
                        ..pre
                    })) by {
                        assert(self@.classes =~= pre.classes);
                        assert(self@.attached =~= pre.attached);
                    }
                }
                Ok(v)
            },
            RefTarget::ToClass(_) => Err(RuntimeError::InvalidHandle),
        }
    }

    /// Reads the counter of the instance `h` points at, without changing
    /// anything.
    pub fn counter_get(&self, env: &EnvContext, h: &NativeHandle) -> (r: Result<i32, RuntimeError>)
        requires
            self@.wf(),
            self@.is_attached(env.thread as int),
        ensures
            self@.pending ==> r == Err::<i32, RuntimeError>(RuntimeError::PendingException),
            !self@.pending && !(self@.usable(*h, env.thread as int) && self@.target_of(
                *h,
            ) is ToInstance) ==> r == Err::<i32, RuntimeError>(RuntimeError::InvalidHandle),
            !self@.pending && self@.usable(*h, env.thread as int) && self@.target_of(
                *h,
            ) is ToInstance ==> (r matches Ok(v) && v as int == self@.counter_of(*h)),
    {
        if self.pending {
            return Err(RuntimeError::PendingException);
        }
        if h.raw >= self.refs.len() {
            return Err(RuntimeError::InvalidHandle);
        }
        let e = self.refs[h.raw];
        if !(e.kind == h.kind && e.live && (!matches!(h.kind, RefKind::Local) || e.owner
            == env.thread)) {
            return Err(RuntimeError::InvalidHandle);
        }
        match e.target {
            RefTarget::ToInstance(o) => Ok(self.objects[o].counter),
            RefTarget::ToClass(_) => Err(RuntimeError::InvalidHandle),
        }
    }

    /// Whether an exception is pending.
    pub fn exception_check(&self, env: &EnvContext) -> (r: bool)
        requires
            self@.is_attached(env.thread as int),
        ensures
            r == self@.pending,
    {
        self.pending
    }

    /// Marks an exception as pending, standing for a runtime call that threw.
    pub fn raise_exception(&mut self, env: &EnvContext)
        requires
            old(self)@.wf(),
            old(self)@.is_attached(env.thread as int),
        ensures
            final(self)@.wf(),
            final(self)@ == (RuntimeView { pending: true, ..old(self)@ }),
    {
        let ghost pre = self@;
        self.pending = true;
        proof {
            assert(self@ == (RuntimeView { pending: true, ..pre })) by {
                assert(self@.classes =~= pre.classes);
                assert(self@.attached =~= pre.attached);
            }
        }
    }

    /// Reports the pending exception and clears it, so that further runtime
    /// calls are legal again.
    pub fn exception_describe(&mut self, env: &EnvContext)
        requires
            old(self)@.wf(),
            old(self)@.is_attached(env.thread as int),
        ensures
            final(self)@.wf(),
            final(self)@ == (RuntimeView { pending: false, ..old(self)@ }),
    {
        let ghost pre = self@;
        self.pending = false;
        proof {
            assert(self@ == (RuntimeView { pending: false, ..pre })) by {
                assert(self@.classes =~= pre.classes);
                assert(self@.attached =~= pre.attached);
            }
        }
    }

    /// How many reference slots the runtime has handed out so far (live or
    /// dead); lets a caller observe that an operation created nothing.
    pub fn ref_table_len(&self) -> (n: usize)
        ensures
            n == self@.refs.len(),
    {
        self.refs.len()
    }
}

/// What becomes of a reference slot when thread `t` detaches: local slots it
/// owns die, everything else is untouched.
pub open spec fn scope_exit(e: RefEntry, t: int) -> RefEntry {
    if e.kind == RefKind::Local && e.owner == t {
        RefEntry { live: false, ..e }
    } else {
        e
    }
}

} // verus!
