//! A read-only capability filter over a capability-based filesystem
//! interface.
//!
//! A sandboxed guest holds handles to directories and files.  The types in
//! this crate wrap such a handle and re-expose the same operation surface
//! while guaranteeing that no operation reachable through the wrapped handle
//! can mutate the filesystem: every mutating operation is denied immediately
//! with [`types::FsError::PermissionDenied`] and never reaches the inner
//! capability, while every observational operation is delegated verbatim,
//! with any handle the inner capability returns re-wrapped so that
//! read-only-ness is transitive through the whole subtree.

pub mod filter;
pub mod inner;
pub mod types;
