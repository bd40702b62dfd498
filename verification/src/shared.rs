//! Trusted boundary to the standard library's atomically reference-counted
//! pointer. The promotion logic in the crate root is verified against the
//! contracts stated here; the bodies only forward to `std::sync`.

use vstd::prelude::*;

verus! {

/// Holds a `std::sync::Weak`. That type takes an allocator parameter, which
/// stops a direct declaration, so it lives in this opaque struct instead:
/// nothing is known of a value of it beyond what the wrappers below state.
#[verifier::external_body]
#[verifier::reject_recursive_types(T)]
struct OpaqueWeak<T> {
    weak: std::sync::Weak<T>,
}

/// A weak handle paired with a ghost record of the contents the referenced
/// allocation held when the handle was made. Only `downgrade_handle`
/// constructs a value of this type, so the record is written by the trusted
/// code below alone, and the two wrappers stand together as one contract on
/// std's weak pointer: downgrading records the allocation's contents, and
/// upgrading, when it succeeds, returns them.
#[verifier::reject_recursive_types(T)]
pub struct WeakHandle<T> {
    inner: OpaqueWeak<T>,
    referent: Ghost<T>,
}

impl<T> WeakHandle<T> {
    /// The contents the referenced allocation held when this handle was
    /// made.
    pub closed spec fn referent(self) -> T {
        self.referent@
    }
}

/// The contents behind a strong handle.
spec fn contents_of<T>(handle: &std::sync::Arc<T>) -> T {
    **handle
}

/// The ghost record of a strong handle's contents, built in verified code
/// and carrying no runtime data; `downgrade_handle` pairs it with the weak
/// handle it makes.
fn record_contents<T>(handle: &std::sync::Arc<T>) -> (g: Ghost<T>)
    ensures
        g@ == **handle,
{
    Ghost(contents_of(handle))
}

/// Relies on `std::sync::Arc::strong_count`: it returns the number of strong
/// handles to the allocation, and `handle` itself is one of them, so the
/// count is at least one. Other handles may exist elsewhere, so nothing more
/// can be said of the result.
#[verifier::external_body]
pub(crate) fn strong_count_of<T>(handle: &std::sync::Arc<T>) -> (n: usize)
    ensures
        n >= 1,
{
    std::sync::Arc::strong_count(handle)
}

/// Relies on `std::sync::Arc::weak_count`: it returns the number of live weak
/// handles to the allocation. That number depends on handles this crate
/// cannot observe, so no clause constrains the result.
#[verifier::external_body]
pub(crate) fn weak_count_of<T>(handle: &std::sync::Arc<T>) -> (n: usize)
{
    std::sync::Arc::weak_count(handle)
}

/// Relies on `std::sync::Arc::try_unwrap`: on success the allocation's value
/// comes out; on failure the same handle comes back. Whether it succeeds
/// depends on how many strong handles exist, which this crate cannot
/// observe, so neither outcome is promised.
#[verifier::external_body]
pub(crate) fn try_unwrap_handle<T>(handle: std::sync::Arc<T>) -> (r: Result<T, std::sync::Arc<T>>)
    ensures
        r matches Ok(v) ==> v == handle,
        r matches Err(h) ==> h == handle,
{
    std::sync::Arc::try_unwrap(handle)
}

/// Relies on `std::sync::Arc::downgrade`: it returns a weak handle to
/// `handle`'s allocation, whose contents are `*handle` at this moment and
/// are never written through a shared handle afterwards, so the record made
/// here stays accurate for as long as the contents live.
#[verifier::external_body]
pub(crate) fn downgrade_handle<T>(handle: &std::sync::Arc<T>) -> (w: WeakHandle<T>)
    ensures
        w.referent() == *handle,
{
    WeakHandle {
        inner: OpaqueWeak { weak: std::sync::Arc::downgrade(handle) },
        referent: record_contents(handle),
    }
}

/// Relies on `std::sync::Weak::upgrade`: it returns a strong handle to the
/// allocation the weak handle was derived from, or nothing once that
/// allocation's contents have been dropped. The contents cannot have changed
/// since `downgrade_handle` recorded them, so on success the returned handle
/// holds the recorded value. Success itself depends on strong handles this
/// crate cannot observe and is not promised.
#[verifier::external_body]
pub(crate) fn upgrade_handle<T>(weak: &WeakHandle<T>) -> (r: Option<std::sync::Arc<T>>)
    ensures
        r matches Some(h) ==> h == weak.referent(),
{
    weak.inner.weak.upgrade()
}

} // verus!
