//! Single-ownership handles for resources whose storage is managed by a
//! routine of their own.
//!
//! Many interfaces hand out resources that must be given back to the same
//! interface to be destroyed: a value is produced by one routine and must be
//! passed to a matching release routine exactly once. This crate provides the
//! ownership discipline for such resources:
//!
//! - [`Private`] marks a type as opaque: it has no public constructor, so a
//!   public wrapper built around it cannot be created outside the module that
//!   owns the boundary.
//! - [`Alloc`] associates a resource type with its release routine.
//! - [`Ptr`] is the unique-ownership handle: it holds exactly one live
//!   resource, grants borrowed access to it, and releases it through its
//!   [`Alloc`] routine exactly once — when [`Ptr::free`] ends its life,
//!   unless the resource is explicitly extracted first and the obligation
//!   handed to the extractor.
//! - [`AsPtr`] forwards the borrow operations of an embedded [`Ptr`] to a
//!   wrapper struct, so the wrapper behaves transparently like the pointee.

mod delegate;
mod marker;
mod owned;

pub use delegate::AsPtr;
pub use marker::Private;
pub use owned::Alloc;
pub use owned::Ptr;
