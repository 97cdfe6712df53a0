//! Reference-lifecycle and descriptor-resolution layer for a managed object
//! runtime.
//!
//! The runtime hands out *references* to its objects: local ones, valid only
//! for the creating thread while it stays attached, and global ones, valid
//! across threads until explicitly deleted.  This crate provides the ownership
//! layer a host process needs to hold, share and release such references
//! safely:
//!
//! - [`runtime::Runtime`] — an executable model of the runtime collaborator
//!   itself (class lookup, reference creation and deletion, per-thread
//!   attachment, pending-exception state), so that every rule of the layer is
//!   stated and machine-checked against an explicit state.
//! - [`record::RefRegistry`] — refcounted records of promoted global
//!   references, shared by [`record::DetachedGlobalRef`] and
//!   [`record::AttachedGlobalRef`] tokens.
//! - [`scoped::ScopedLocalRef`] — owned local references whose release is
//!   consumed exactly once.
//! - [`resolver`] — class-descriptor resolution from a textual name, a live
//!   instance, or an already-held class reference.

pub mod errors;
pub mod handle;
pub mod laws;
pub mod record;
pub mod resolver;
pub mod runtime;
pub mod scoped;
