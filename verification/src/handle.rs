use vstd::prelude::*;

verus! {

/// The kind of a runtime reference.  A `Local` reference is valid only for
/// the thread that created it, while that thread stays attached; a `Global`
/// reference stays valid across threads until it is explicitly deleted.
#[derive(Clone, Copy, Debug, PartialEq, Eq, Structural)]
pub enum RefKind {
    Local,
    Global,
}

/// Opaque identifier for a runtime-side object reference: the raw slot the
/// runtime assigned plus its reference kind.  It carries no behaviour of its
/// own; every operation on it goes through the runtime, which checks whether
/// the slot is still live.
#[derive(Clone, Copy, Debug, PartialEq, Eq, Structural)]
pub struct NativeHandle {
    pub raw: usize,
    pub kind: RefKind,
}

/// A reference that the holder treats as denoting a class object.  Produced
/// by the resolver; consumed wherever an operation needs "the class of X".
#[derive(Clone, Copy, Debug, PartialEq, Eq, Structural)]
pub struct ClassHandle {
    pub handle: NativeHandle,
}

} // verus!
