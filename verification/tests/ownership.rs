use std::cell::Cell;
use std::rc::Rc;

use cffi::Alloc;
use cffi::Ptr;

/// A resource with an instrumented release routine: every release bumps the
/// shared counter, so a test can observe how often release fired.
struct Counted {
    val: u64,
    releases: Rc<Cell<u32>>,
}

impl Alloc for Counted {
    fn free(this: Counted) {
        this.releases.set(this.releases.get() + 1);
    }
}

fn counted(val: u64) -> (Rc<Cell<u32>>, Counted) {
    let releases = Rc::new(Cell::new(0u32));
    let res = Counted { val, releases: Rc::clone(&releases) };
    (releases, res)
}

#[test]
fn wrap_then_free_releases_exactly_once() {
    let (releases, res) = counted(3);
    let p = Ptr::from_raw(res);
    assert_eq!(releases.get(), 0);
    Ptr::free(p);
    assert_eq!(releases.get(), 1);
}

#[test]
fn unwrap_returns_wrapped_resource_without_release() {
    let (releases, res) = counted(41);
    let p = Ptr::from_raw(res);
    let raw = Ptr::into_raw(p);
    assert_eq!(raw.val, 41);
    assert_eq!(releases.get(), 0);
    Alloc::free(raw);
    assert_eq!(releases.get(), 1);
}

#[test]
fn extraction_forfeits_release_permanently() {
    let (releases, res) = counted(7);
    let p = Ptr::from_raw(res);
    let raw = Ptr::into_raw(p);
    assert_eq!(releases.get(), 0);
    // The consumed handle is gone for good; only the extracted resource
    // remains, and nothing releases it behind the caller's back.
    let val = raw.val;
    assert_eq!(val, 7);
    assert_eq!(releases.get(), 0);
}

#[test]
fn borrows_never_release_or_replace() {
    let (releases, res) = counted(10);
    let mut p = Ptr::from_raw(res);

    assert_eq!(Ptr::as_ptr(&p).val, 10);
    assert_eq!(p.as_ref().val, 10);
    assert_eq!(p.borrow().val, 10);
    assert_eq!(p.deref().val, 10);
    assert_eq!(releases.get(), 0);

    Ptr::as_raw(&mut p).val = 11;
    assert_eq!(p.deref().val, 11);
    p.as_mut().val = 12;
    assert_eq!(p.deref().val, 12);
    p.borrow_mut().val = 13;
    assert_eq!(p.deref().val, 13);
    p.deref_mut().val = 14;
    assert_eq!(p.deref().val, 14);
    assert_eq!(releases.get(), 0);

    Ptr::free(p);
    assert_eq!(releases.get(), 1);
}

#[test]
fn two_handles_release_independently() {
    let (releases_a, res_a) = counted(1);
    let (releases_b, res_b) = counted(2);
    let pa = Ptr::from_raw(res_a);
    let pb = Ptr::from_raw(res_b);

    Ptr::free(pb);
    assert_eq!(releases_a.get(), 0);
    assert_eq!(releases_b.get(), 1);

    Ptr::free(pa);
    assert_eq!(releases_a.get(), 1);
    assert_eq!(releases_b.get(), 1);
}

#[test]
fn mutation_through_handle_reaches_the_resource() {
    let (releases, res) = counted(0);
    let mut p = Ptr::from_raw(res);
    p.deref_mut().val = 99;
    let raw = Ptr::into_raw(p);
    assert_eq!(raw.val, 99);
    assert_eq!(releases.get(), 0);
}
