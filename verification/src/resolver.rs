use vstd::prelude::*;

use crate::errors::LookupError;
use crate::handle::{ClassHandle, NativeHandle, RefKind};
use crate::record::{AttachedGlobalRef, RefRegistry};
use crate::runtime::{EnvContext, RefEntry, RefTarget, Runtime, RuntimeView};
use crate::scoped::ScopedLocalRef;

verus! {

/// The admissible sources a class handle can be resolved from.  Each variant
/// carries its own resolution algorithm; adding a representation means adding
/// a variant and its arm, not changing the existing ones.
#[derive(Debug)]
pub enum ClassSource {
    /// A textual class name, resolved through the runtime's find-class
    /// lookup.
    Name(String),
    /// A live object instance: the runtime reports its class.
    Instance(NativeHandle),
    /// An already-held reference that the caller asserts denotes a class
    /// object.  Resolution reinterprets it without any runtime call; the
    /// handle stays as scoped as its source.
    Existing(NativeHandle),
}

/// Resolves a class handle from any admissible source.
///
/// - `Name` succeeds if and only if the class is loaded, handing back a
///   fresh local reference to the class object; an unknown name fails with
///   `ClassNotFound` and performs no mutation at all.
/// - `Instance` succeeds if and only if the handle is a usable instance
///   reference, handing back a fresh local reference to its class object.
/// - `Existing` reinterprets the handle with no runtime call and never
///   fails; the caller answers for the handle really denoting a class, and a
///   wrong claim surfaces as `InvalidHandle` at the first use.
pub fn resolve(rt: &mut Runtime, env: &EnvContext, src: &ClassSource) -> (r: Result<
    ClassHandle,
    LookupError,
>)
    requires
        old(rt)@.wf(),
        old(rt)@.is_attached(env.thread as int),
    ensures
        final(rt)@.wf(),
        match src {
            ClassSource::Name(name) => if old(rt)@.has_class(name@) {
                r matches Ok(ch) && ch.handle.kind == RefKind::Local && ch.handle.raw
                    == old(rt)@.refs.len() && final(rt)@ == (RuntimeView {
                    refs: old(rt)@.refs.push(
                        (RefEntry {
                            kind: RefKind::Local,
                            target: RefTarget::ToClass(old(rt)@.class_index(name@) as usize),
                            live: true,
                            owner: env.thread,
                        }),
                    ),
                    ..old(rt)@
                })
            } else {
                r == Err::<ClassHandle, LookupError>(LookupError::ClassNotFound) && final(rt)@
                    == old(rt)@
            },
            ClassSource::Instance(h) => if old(rt)@.usable(*h, env.thread as int) && old(
                rt,
            )@.target_of(*h) is ToInstance {
                r matches Ok(ch) && ch.handle.kind == RefKind::Local && ch.handle.raw
                    == old(rt)@.refs.len() && final(rt)@ == (RuntimeView {
                    refs: old(rt)@.refs.push(
                        (RefEntry {
                            kind: RefKind::Local,
                            target: RefTarget::ToClass(old(rt)@.class_of_instance(*h)),
                            live: true,
                            owner: env.thread,
                        }),
                    ),
                    ..old(rt)@
                })
            } else {
                r == Err::<ClassHandle, LookupError>(LookupError::InvalidReference) && final(rt)@
                    == old(rt)@
            },
            ClassSource::Existing(h) => r == Ok::<ClassHandle, LookupError>(
                (ClassHandle { handle: *h }),
            ) && final(rt)@ == old(rt)@,
        },
{
    match src {
        ClassSource::Name(name) => rt.find_class(env, name),
        ClassSource::Instance(h) => rt.get_object_class(env, h),
        ClassSource::Existing(h) => Ok(ClassHandle { handle: *h }),
    }
}

/// The source an attached global reference yields: its handle, reinterpreted
/// as a class by the caller's claim.
pub fn source_from_attached(a: &AttachedGlobalRef, reg: &RefRegistry) -> (s: ClassSource)
    requires
        a.valid(reg@),
    ensures
        s == ClassSource::Existing(reg@[a.id()].handle),
{
    ClassSource::Existing(a.as_raw(reg))
}

/// The source a scoped local reference yields: its handle, reinterpreted as
/// a class by the caller's claim.
pub fn source_from_scoped(s: &ScopedLocalRef) -> (r: ClassSource)
    ensures
        r matches ClassSource::Existing(h) && h.raw == s.raw() && h.kind == RefKind::Local,
{
    ClassSource::Existing(s.as_raw())
}

} // verus!
