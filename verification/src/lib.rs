//! A reference-counted pointer that defers heap allocation until a value is
//! actually shared.
//!
//! A cell starts out holding its payload inline, exclusively owned. The first
//! operation that needs sharing — `clone` or `downgrade` — promotes the
//! payload into a standard atomically reference-counted allocation; every
//! later handle refers to that allocation. `make_mut` goes the other way:
//! on a shared cell it materialises a private copy of the payload, so the
//! cell diverges from its former clones (copy-on-write).

use vstd::prelude::*;

pub mod laws;
mod shared;

verus! {

/// The cell's internal state.
///
/// `Poisoned` occupies the cell only while a promotion is in flight: the
/// payload is swapped out, the allocation is made, and a legitimate state is
/// swapped back in. No operation returns with the cell still poisoned, and
/// every operation requires a non-poisoned cell, so callers never observe it.
enum ArcData<T> {
    Inline(T),
    Shared(std::sync::Arc<T>),
    Poisoned,
}

/// A dual-mode owner cell: behaves like an atomically reference-counted
/// pointer, but keeps its payload inline until the first `clone` or
/// `downgrade` forces a shared allocation.
pub struct Arc<T> {
    inner: ArcData<T>,
}

/// A weak, non-owning reference to a shared allocation, produced by
/// [`Arc::downgrade`]. It does not keep the payload alive; upgrading fails
/// once every strong holder has dropped.
#[verifier::reject_recursive_types(T)]
pub struct Weak<T> {
    handle: shared::WeakHandle<T>,
}

impl<T> Arc<T> {
    /// The cell holds its payload inline and owns it exclusively.
    pub closed spec fn is_exclusive(self) -> bool {
        self.inner is Inline
    }

    /// The cell holds a strong handle to a shared allocation.
    pub closed spec fn is_shared(self) -> bool {
        self.inner is Shared
    }

    /// The cell is in one of its two legitimate states.
    pub closed spec fn wf(self) -> bool {
        !(self.inner is Poisoned)
    }

    /// The payload the cell dereferences to.
    pub closed spec fn value(self) -> T {
        match self.inner {
            ArcData::Inline(v) => v,
            ArcData::Shared(h) => *h,
            ArcData::Poisoned => vstd::pervasive::arbitrary(),
        }
    }

    /// Makes a cell that owns `val` exclusively. Nothing is allocated and no
    /// reference count exists yet.
    pub fn new(val: T) -> (r: Arc<T>)
        ensures
            r.wf(),
            r.is_exclusive(),
            r.value() == val,
    {
        Arc { inner: ArcData::Inline(val) }
    }

    /// Borrows the payload, in either state. The counterpart of dereferencing
    /// a standard reference-counted pointer.
    pub fn get(this: &Arc<T>) -> (r: &T)
        requires
            this.wf(),
        ensures
            *r == this.value(),
    {
        match &this.inner {
            ArcData::Inline(v) => v,
            ArcData::Shared(h) => &**h,
            ArcData::Poisoned => vstd::pervasive::unreached(),
        }
    }

    /// Makes a second cell holding the same logical value.
    ///
    /// On an exclusive cell this is the promotion point: the payload moves
    /// into a fresh shared allocation, this cell keeps one strong handle to
    /// it and the returned cell holds another. The payload itself is moved,
    /// never duplicated. On a cell that is already shared only the strong
    /// count grows; nothing is allocated, which this contract reflects by
    /// keeping the cell in its shared state.
    ///
    /// While the payload is swapped out the cell reads `Poisoned`; a
    /// legitimate state is written back before returning.
    pub fn clone(this: &mut Arc<T>) -> (r: Arc<T>)
        requires
            old(this).wf(),
        ensures
            final(this).wf(),
            final(this).is_shared(),
            final(this).value() == old(this).value(),
            r.wf(),
            r.is_shared(),
            r.value() == old(this).value(),
    {
        let mut data = ArcData::Poisoned;
        core::mem::swap(&mut data, &mut this.inner);
        match data {
            ArcData::Inline(v) => {
                let handle = std::sync::Arc::new(v);
                let second = handle.clone();
                this.inner = ArcData::Shared(handle);
                Arc { inner: ArcData::Shared(second) }
            },
            ArcData::Shared(handle) => {
                let second = handle.clone();
                this.inner = ArcData::Shared(handle);
                Arc { inner: ArcData::Shared(second) }
            },
            ArcData::Poisoned => vstd::pervasive::unreached(),
        }
    }
}

impl<T> Arc<T> where T: Clone {
    /// Borrows the payload mutably, exactly when the cell is exclusive.
    ///
    /// A shared cell answers `None` whatever the allocation's counts say:
    /// other cells may hold handles this one cannot observe, so once
    /// promoted the cell never again claims uniqueness this way.
    pub fn get_mut(this: &mut Arc<T>) -> (r: Option<&mut T>)
        requires
            old(this).wf(),
        ensures
            old(this).is_exclusive() ==> r is Some
                && *r.unwrap() == old(this).value()
                && final(this).is_exclusive()
                && final(this).value() == *final(r.unwrap()),
            old(this).is_shared() ==> r is None && *final(this) == *old(this),
            final(this).wf(),
    {
        match &mut this.inner {
            ArcData::Inline(v) => Some(v),
            ArcData::Shared(_) => None,
            ArcData::Poisoned => vstd::pervasive::unreached(),
        }
    }

    /// Consumes the cell, recovering the bare payload when this was the last
    /// strong holder.
    ///
    /// An exclusive cell always succeeds: no other holder can exist. A
    /// shared cell defers to the allocation's own unwrap, which this crate
    /// cannot predict; either way no value is lost — failure hands back an
    /// unconsumed cell holding the same payload.
    pub fn try_unwrap(this: Arc<T>) -> (r: Result<T, Arc<T>>)
        requires
            this.wf(),
        ensures
            this.is_exclusive() ==> r is Ok,
            r matches Ok(v) ==> v == this.value(),
            r matches Err(c) ==> this.is_shared() && c.wf() && c.is_shared()
                && c.value() == this.value(),
    {
        match this.inner {
            ArcData::Inline(v) => Ok(v),
            ArcData::Shared(handle) => match shared::try_unwrap_handle(handle) {
                Ok(v) => Ok(v),
                Err(h) => Err(Arc { inner: ArcData::Shared(h) }),
            },
            ArcData::Poisoned => vstd::pervasive::unreached(),
        }
    }

    /// The number of strong holders of the payload. An exclusive cell is the
    /// only possible holder; a shared cell delegates to the allocation's
    /// live count, of which only a lower bound can be stated here.
    pub fn strong_count(this: &Arc<T>) -> (n: usize)
        requires
            this.wf(),
        ensures
            this.is_exclusive() ==> n == 1,
            n >= 1,
    {
        match &this.inner {
            ArcData::Inline(_) => 1,
            ArcData::Shared(handle) => shared::strong_count_of(handle),
            ArcData::Poisoned => vstd::pervasive::unreached(),
        }
    }

    /// The number of live weak references to the payload. No weak reference
    /// can exist without a prior promotion, so an exclusive cell reports
    /// zero; a shared cell delegates to the allocation's live count.
    pub fn weak_count(this: &Arc<T>) -> (n: usize)
        requires
            this.wf(),
        ensures
            this.is_exclusive() ==> n == 0,
    {
        match &this.inner {
            ArcData::Inline(_) => 0,
            ArcData::Shared(handle) => shared::weak_count_of(handle),
            ArcData::Poisoned => vstd::pervasive::unreached(),
        }
    }

    /// Makes a weak, non-owning reference to the payload.
    ///
    /// An exclusive cell is promoted first, exactly as in [`Arc::clone`]:
    /// weak references only make sense against a counted allocation. The
    /// cell's value is unchanged, and the weak reference records it.
    pub fn downgrade(this: &mut Arc<T>) -> (w: Weak<T>)
        requires
            old(this).wf(),
        ensures
            final(this).wf(),
            final(this).is_shared(),
            final(this).value() == old(this).value(),
            w.referent() == old(this).value(),
    {
        let mut data = ArcData::Poisoned;
        core::mem::swap(&mut data, &mut this.inner);
        match data {
            ArcData::Inline(v) => {
                let handle = std::sync::Arc::new(v);
                let weak = shared::downgrade_handle(&handle);
                this.inner = ArcData::Shared(handle);
                Weak { handle: weak }
            },
            ArcData::Shared(handle) => {
                let weak = shared::downgrade_handle(&handle);
                this.inner = ArcData::Shared(handle);
                Weak { handle: weak }
            },
            ArcData::Poisoned => vstd::pervasive::unreached(),
        }
    }

    /// Reconstructs a cell, directly in the shared state, around an existing
    /// strong handle.
    pub fn from_shared(handle: std::sync::Arc<T>) -> (r: Arc<T>)
        ensures
            r.wf(),
            r.is_shared(),
            r.value() == handle,
    {
        Arc { inner: ArcData::Shared(handle) }
    }

    /// Borrows the payload mutably, materialising uniqueness if need be.
    ///
    /// An exclusive cell hands out its payload directly: nothing is copied.
    /// A shared cell first tries to take its allocation back; when this cell
    /// was the allocation's last strong holder that succeeds and the payload
    /// is moved, not copied. Otherwise the payload is duplicated once, the
    /// cell becomes exclusive over the duplicate and hands that out; the old
    /// allocation is untouched, so any former clone keeps observing the old
    /// value and the two diverge — copy-on-write. Either way the cell leaves
    /// exclusive, holding whatever the caller wrote through the borrow.
    ///
    /// While the payload changes places the cell reads `Poisoned`; a
    /// legitimate state is written back before returning.
    pub fn make_mut(this: &mut Arc<T>) -> (r: &mut T)
        requires
            old(this).wf(),
        ensures
            old(this).is_exclusive() ==> *r == old(this).value(),
            old(this).is_shared() ==> cloned::<T>(old(this).value(), *r),
            final(this).wf(),
            final(this).is_exclusive(),
            final(this).value() == *final(r),
    {
        let mut data = ArcData::Poisoned;
        core::mem::swap(&mut data, &mut this.inner);
        match data {
            ArcData::Inline(v) => {
                this.inner = ArcData::Inline(v);
            },
            ArcData::Shared(handle) => match shared::try_unwrap_handle(handle) {
                Ok(v) => {
                    this.inner = ArcData::Inline(v);
                },
                Err(h) => {
                    this.inner = ArcData::Inline((&*h).clone());
                },
            },
            ArcData::Poisoned => vstd::pervasive::unreached(),
        }
        match &mut this.inner {
            ArcData::Inline(v) => v,
            _ => vstd::pervasive::unreached(),
        }
    }
}

impl<T> Weak<T> {
    /// The value the referenced allocation held when this weak reference was
    /// made.
    pub closed spec fn referent(self) -> T {
        self.handle.referent()
    }

    /// Attempts to recover a strong holder from this weak reference.
    ///
    /// Succeeds as long as the referenced allocation's payload has not been
    /// dropped — which depends on strong holders this crate cannot observe —
    /// and then yields a shared cell holding the recorded value.
    pub fn upgrade(&self) -> (r: Option<Arc<T>>)
        ensures
            r matches Some(c) ==> c.wf() && c.is_shared() && c.value() == self.referent(),
    {
        match shared::upgrade_handle(&self.handle) {
            Some(handle) => Some(Arc { inner: ArcData::Shared(handle) }),
            None => None,
        }
    }
}

} // verus!
