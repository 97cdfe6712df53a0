use vstd::prelude::*;

verus! {

/// A class descriptor could not be resolved.
#[derive(Clone, Copy, Debug, PartialEq, Eq, Structural)]
pub enum LookupError {
    /// The runtime knows no class under the requested name.
    ClassNotFound,
    /// The source reference was dead, of the wrong shape, or not usable from
    /// the calling thread.
    InvalidReference,
}

/// Thread attachment or detachment failed.
#[derive(Clone, Copy, Debug, PartialEq, Eq, Structural)]
pub enum AttachError {
    /// The thread is already attached; it holds a context token already.
    AlreadyAttached,
    /// The thread is not attached, so there is nothing to detach.
    NotAttached,
}

/// An operation against a handle failed at the runtime boundary.
#[derive(Clone, Copy, Debug, PartialEq, Eq, Structural)]
pub enum RuntimeError {
    /// An exception is pending; the caller must inspect it before further
    /// runtime calls.
    PendingException,
    /// The handle does not denote a live reference usable here.
    InvalidHandle,
}

/// A shared global reference could not be released.
#[derive(Clone, Copy, Debug, PartialEq, Eq, Structural)]
pub enum RefError {
    /// The count would have reached zero, but deleting the underlying global
    /// handle needs an attached thread and none was supplied.  The token is
    /// handed back, so nothing is leaked and nothing is deleted.
    ReleaseOnDetachedThread,
}

} // verus!
