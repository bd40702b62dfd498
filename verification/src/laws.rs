//! Laws relating the cell's operations, stated over the same model the
//! operations' contracts speak of and proved from those contracts alone.

use vstd::prelude::*;
use crate::Arc;
use crate::Weak;

verus! {

/// A well-formed cell is in exactly one of its two legitimate states,
/// exclusive or shared — never both, and never anything else.
pub proof fn lemma_state_is_exclusive_or_shared<T>(c: Arc<T>)
    ensures
        c.wf() <==> (c.is_exclusive() || c.is_shared()),
        !(c.is_exclusive() && c.is_shared()),
{
}

/// A freshly constructed cell is exclusively owned: it holds exactly the
/// value it was given, reports one strong holder and no weak references.
/// (`Arc::get_mut` on such a cell returns that same value, by its own
/// contract: an exclusive cell always grants mutable access.)
pub proof fn lemma_fresh_cell_is_sole_owner<T: Clone>(
    v: T,
    c: Arc<T>,
    n_strong: usize,
    n_weak: usize,
)
    requires
        call_ensures(Arc::<T>::new, (v,), c),
        call_ensures(Arc::<T>::strong_count, (&c,), n_strong),
        call_ensures(Arc::<T>::weak_count, (&c,), n_weak),
    ensures
        c.wf(),
        c.is_exclusive(),
        c.value() == v,
        n_strong == 1,
        n_weak == 0,
{
}

/// An exclusive cell gives its payload up intact: consuming it with
/// `Arc::try_unwrap` cannot fail, and what comes out is the cell's value.
pub proof fn lemma_unwrap_exclusive_succeeds<T: Clone>(c: Arc<T>, r: Result<T, Arc<T>>)
    requires
        c.wf(),
        c.is_exclusive(),
        call_ensures(Arc::<T>::try_unwrap, (c,), r),
    ensures
        r matches Ok(v) && v == c.value(),
{
}

/// Whatever `Arc::try_unwrap` decides, the payload survives: success hands
/// it out, and failure hands back an unconsumed shared cell still holding
/// it, so no value is ever lost.
pub proof fn lemma_unwrap_loses_nothing<T: Clone>(c: Arc<T>, r: Result<T, Arc<T>>)
    requires
        c.wf(),
        call_ensures(Arc::<T>::try_unwrap, (c,), r),
    ensures
        match r {
            Ok(v) => v == c.value(),
            Err(e) => e.wf() && e.is_shared() && e.value() == c.value(),
        },
{
}

/// Round trip through a weak reference: `Arc::downgrade` on a cell holding
/// `v` yields a weak reference recording `v` (its own contract), and
/// upgrading that weak reference, whenever it succeeds, yields a shared
/// cell holding `v` again.
pub proof fn lemma_weak_round_trip<T>(v: T, w: Weak<T>, r: Option<Arc<T>>)
    requires
        w.referent() == v,
        call_ensures(Weak::<T>::upgrade, (&w,), r),
        r is Some,
    ensures
        r.unwrap().wf(),
        r.unwrap().is_shared(),
        r.unwrap().value() == v,
{
}

} // verus!
