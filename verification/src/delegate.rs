use vstd::prelude::*;

use crate::owned::Alloc;
use crate::owned::Ptr;

verus! {

/// Borrow forwarding for a wrapper struct embedding an owned pointer.
///
/// A bound type is usually a wrapper holding a [`Ptr<T>`] as a field.
/// Implementing the two accessors of this trait equips the wrapper with
/// read-only and mutable borrow operations that reach through to the pointee,
/// so the wrapper behaves transparently like a `T`. The forwarding operations
/// are provided; they add no behavior of their own beyond what [`Ptr`]
/// already guarantees.
pub trait AsPtr<T: Alloc>: Sized {
    /// The embedded owned pointer, at the specification level.
    ///
    /// An implementation that states contracts defines this as the embedded
    /// field, so that the accessors below can promise to return exactly that
    /// field. Left as is, it names an arbitrary pointer and promises nothing.
    open spec fn ptr_spec(&self) -> Ptr<T> {
        arbitrary()
    }

    /// The embedded owned pointer.
    fn ptr(&self) -> (r: &Ptr<T>)
        ensures
            *r == self.ptr_spec(),
    ;

    /// The embedded owned pointer, mutably. The wrapper's embedded pointer
    /// becomes exactly what the caller leaves behind the returned borrow.
    fn ptr_mut(&mut self) -> (r: &mut Ptr<T>)
        ensures
            *r == old(self).ptr_spec(),
            final(self).ptr_spec() == *final(r),
    ;

    /// Read-only borrow of the pointee, forwarded through the embedded
    /// pointer. Alters neither the wrapper nor the pointee.
    fn deref(&self) -> (r: &T)
        ensures
            *r == self.ptr_spec()@,
    {
        Ptr::as_ptr(self.ptr())
    }

    /// Read-only borrow of the pointee; same as [`AsPtr::deref`], under the
    /// name conversion-minded callers expect.
    fn as_ref(&self) -> (r: &T)
        ensures
            *r == self.ptr_spec()@,
    {
        Ptr::as_ptr(self.ptr())
    }

    /// Mutable borrow of the pointee, forwarded through the embedded pointer.
    /// The operation itself alters nothing: the embedded pointer stays in
    /// place, and the pointee becomes exactly what the caller writes through
    /// the returned borrow.
    fn deref_mut(&mut self) -> (r: &mut T)
        ensures
            *r == old(self).ptr_spec()@,
            final(self).ptr_spec()@ == *final(r),
    {
        Ptr::as_raw(self.ptr_mut())
    }
}

} // verus!
