use vstd::prelude::*;

verus! {

/// Trait for resource types which come with their own release routine.
///
/// A type implementing `Alloc` stands for a resource whose storage is managed
/// by the interface that produced it: `free` is the matching destructor. A
/// resource must be released exactly once; [`Ptr`] enforces that discipline
/// for every resource it owns.
pub trait Alloc: Sized {
    /// Release the resource.
    ///
    /// Consumes the resource: once released, it can never be used or released
    /// again. Release is assumed infallible, matching the common convention
    /// that destructors do not report errors.
    fn free(this: Self);
}

/// Owned pointer.
///
/// This type is very similar to `Box` in that it is essentially an owned
/// handle to a resource. The difference between them is that `Box` manages
/// memory allocation itself, while `Ptr` delegates release to the pointee's
/// [`Alloc`] implementation.
///
/// A handle is in one of two states:
///
/// - **Owning** — the handle exists. It holds exactly one resource, grants
///   borrowed access to it, and still carries the obligation to release it.
/// - **Released** — the handle has been consumed, either by [`Ptr::free`],
///   which released the resource, or by [`Ptr::into_raw`], which handed the
///   resource and the whole release obligation to the caller.
///
/// The transition happens exactly once and never reverses: consuming a handle
/// is a move, so no operation can reach it afterward. A second release
/// through the same handle is structurally excluded, and since `Ptr` is
/// neither copyable nor cloneable, at most one handle owns a given resource
/// at a time. Disposal is explicit: end a handle's life with [`Ptr::free`]
/// (or extract with [`Ptr::into_raw`] and release elsewhere); a handle merely
/// forgotten releases nothing.
#[must_use]
pub struct Ptr<T: Alloc> {
    res: T,
}

impl<T: Alloc> Ptr<T> {
    /// Take ownership of a resource.
    ///
    /// The handle produced here owns the resource alone; it is released
    /// through [`Alloc::free`] exactly once, by [`Ptr::free`] at the end of
    /// the handle's life, unless [`Ptr::into_raw`] extracts it first.
    pub fn from_raw(raw: T) -> (p: Ptr<T>)
        ensures
            p@ == raw,
    {
        Ptr { res: raw }
    }

    /// Extract the resource, consuming the handle without releasing.
    ///
    /// Returns exactly the resource the handle owned. No release occurs
    /// through the consumed handle afterward; the caller assumes full
    /// responsibility for releasing the resource exactly once.
    pub fn into_raw(ptr: Ptr<T>) -> (raw: T)
        ensures
            raw == ptr@,
    {
        let Ptr { res } = ptr;
        res
    }

    /// End of life: consume the handle and release its resource through
    /// [`Alloc::free`].
    ///
    /// The resource is passed to its release routine exactly once; the
    /// consumed handle cannot trigger another release, nor any further
    /// operation.
    pub fn free(ptr: Ptr<T>) {
        let Ptr { res } = ptr;
        T::free(res);
    }

    /// Expose the resource read-only, without affecting ownership.
    ///
    /// Alters neither the handle nor the resource it owns.
    pub fn as_ptr(ptr: &Ptr<T>) -> (r: &T)
        ensures
            *r == ptr@,
    {
        &ptr.res
    }

    /// Expose the resource mutably; requires exclusive access to the handle,
    /// which prevents aliased mutation.
    ///
    /// The operation itself alters nothing: the handle keeps its obligation,
    /// and its resource becomes exactly what the caller writes through the
    /// returned borrow.
    pub fn as_raw(ptr: &mut Ptr<T>) -> (r: &mut T)
        ensures
            *r == old(ptr)@,
            final(ptr)@ == *final(r),
    {
        &mut ptr.res
    }

    /// Shared borrow of the pointee, as if the handle were the resource
    /// itself. Alters neither the handle nor the resource.
    pub fn as_ref(&self) -> (r: &T)
        ensures
            *r == self@,
    {
        &self.res
    }

    /// Exclusive borrow of the pointee. The operation itself alters nothing:
    /// the resource becomes exactly what the caller writes through the
    /// returned borrow.
    pub fn as_mut(&mut self) -> (r: &mut T)
        ensures
            *r == old(self)@,
            final(self)@ == *final(r),
    {
        &mut self.res
    }

    /// Shared borrow of the pointee; same access as [`Ptr::as_ref`].
    pub fn borrow(&self) -> (r: &T)
        ensures
            *r == self@,
    {
        &self.res
    }

    /// Exclusive borrow of the pointee; same access as [`Ptr::as_mut`].
    pub fn borrow_mut(&mut self) -> (r: &mut T)
        ensures
            *r == old(self)@,
            final(self)@ == *final(r),
    {
        &mut self.res
    }

    /// Shared borrow of the pointee; same access as [`Ptr::as_ref`].
    pub fn deref(&self) -> (r: &T)
        ensures
            *r == self@,
    {
        &self.res
    }

    /// Exclusive borrow of the pointee; same access as [`Ptr::as_mut`].
    pub fn deref_mut(&mut self) -> (r: &mut T)
        ensures
            *r == old(self)@,
            final(self)@ == *final(r),
    {
        &mut self.res
    }
}

impl<T: Alloc> View for Ptr<T> {
    type V = T;

    /// The resource the handle owns.
    closed spec fn view(&self) -> T {
        self.res
    }
}

} // verus!
