use vstd::prelude::*;

verus! {

/// Marker for opaque structures whose layout is intentionally hidden.
///
/// It is common for an interface to expose a type name while keeping its
/// definition private, so that clients can only ever reach a value of the
/// type through the interface's own routines. Such a structure should be
/// represented by a public wrapper whose sole field is a `Private`:
///
/// - the wrapper has no public constructor, because its `Private` field can
///   only be named inside this crate — and this crate never constructs one;
/// - it cannot be matched on or structurally compared;
/// - it carries no data of its own, so nothing about the hidden layout is
///   claimed.
///
/// `Private` is purely a compile-time device: it has no runtime behavior, and
/// no value of it ever exists.
pub struct Private {
    _opaque: (),
}

} // verus!
