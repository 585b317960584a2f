//! The thread-safe reference-counted ownership pointer.
//!
//! The shape is the one of [`crate::rc`]: one heap block of counter plus
//! value, a counter that always equals the number of live handles, and
//! reclamation by the last handle. In a concurrent implementation the
//! counter is an atomic integer — duplication increments it with relaxed
//! ordering, a drop decrements it with release ordering, and the last drop
//! issues an acquire fence before reclaiming, so that every write made
//! under a dropped handle is visible to the reclaiming thread. Those
//! orderings guard the counter against races; the counting protocol they
//! guard is the one of [`crate::counter`], and that protocol is what is
//! verified here, over a sequentially held counter. One difference from the
//! single-threaded pointer is kept: runaway duplication is bounded, and a
//! handle may only be duplicated while the count is below the platform's
//! signed maximum — past it, a concurrent implementation would abort rather
//! than let the counter wrap and free the block under live handles.

use crate::cell::Cell;
use crate::counter::HandleOp;
use crate::counter::admissible;
use crate::counter::count_after;
use crate::counter::lemma_admissible_push;
use crate::counter::lemma_count_after_push;
use vstd::prelude::*;

verus! {

/// One additional live handle on an [`Arc`] block. Giving it back to
/// [`Arc::drop_handle`] is what lowers the count.
pub struct ArcHandle {
    _private: (),
}

/// The heap block an [`Arc`] manages: the shared value and the counter that
/// tracks its live handles.
pub struct ArcInner<T> {
    rc: Cell<usize>,
    data: T,
}

/// A heap block of counter plus value, together with the handles that share
/// it. The counter always equals the number of live handles: the block value
/// itself stands for one handle, each [`ArcHandle`] for one more.
pub struct Arc<T> {
    inner: ArcInner<T>,
    history: Ghost<Seq<HandleOp>>,
}

impl<T> View for Arc<T> {
    type V = T;

    closed spec fn view(&self) -> T {
        self.inner.data
    }
}

impl<T> Arc<T> {
    /// The current value of the counter.
    pub closed spec fn count_spec(self) -> usize {
        self.inner.rc@
    }

    /// The run of retain and release steps this block has seen.
    pub closed spec fn history(self) -> Seq<HandleOp> {
        self.history@
    }

    /// Validity: the counter is the number of live handles after the
    /// recorded run, the run is admissible, and at least the block's own
    /// handle is live.
    pub open spec fn wf(self) -> bool {
        &&& self.count_spec() as int == count_after(self.history())
        &&& admissible(self.history())
        &&& self.count_spec() >= 1
    }

    /// Allocates a block holding `data` with one live handle.
    pub fn new(data: T) -> (block: Arc<T>)
        ensures
            block@ == data,
            block.count_spec() == 1,
            block.history() == Seq::<HandleOp>::empty(),
            block.wf(),
    {
        Arc {
            inner: ArcInner { rc: Cell::new(1), data },
            history: Ghost(Seq::empty()),
        }
    }

    /// Read-only access to the shared value.
    pub fn get(this: &Arc<T>) -> (data: &T)
        ensures
            *data == this@,
    {
        &this.inner.data
    }

    /// Duplicates a handle: raises the counter by one and returns a new
    /// handle on the same block. The count must still be below the
    /// platform's signed maximum — the bound past which duplication is a
    /// fatal fault, not an ordinary error, since a wrapped counter would
    /// free the block under live handles.
    pub fn clone(this: &mut Arc<T>) -> (handle: ArcHandle)
        requires
            old(this).wf(),
            old(this).count_spec() < isize::MAX as usize,
        ensures
            final(this).wf(),
            final(this)@ == old(this)@,
            final(this).count_spec() == old(this).count_spec() + 1,
            final(this).history() == old(this).history().push(HandleOp::Retain),
    {
        let live = this.inner.rc.get();
        this.inner.rc.set(live + 1);
        proof {
            lemma_count_after_push(old(this).history@, HandleOp::Retain);
            lemma_admissible_push(old(this).history@, HandleOp::Retain);
        }
        this.history = Ghost(this.history@.push(HandleOp::Retain));
        ArcHandle { _private: () }
    }

    /// Drops a duplicated handle: lowers the counter by one and leaves the
    /// block alive. A token handle exists only while the counter is at least
    /// two, so this is never the step that reclaims the block.
    pub fn drop_handle(this: &mut Arc<T>, handle: ArcHandle)
        requires
            old(this).wf(),
            old(this).count_spec() >= 2,
        ensures
            final(this).wf(),
            final(this)@ == old(this)@,
            final(this).count_spec() == old(this).count_spec() - 1,
            final(this).history() == old(this).history().push(HandleOp::Release),
    {
        let _consumed = handle;
        let live = this.inner.rc.get();
        this.inner.rc.set(live - 1);
        proof {
            lemma_count_after_push(old(this).history@, HandleOp::Release);
            lemma_admissible_push(old(this).history@, HandleOp::Release);
        }
        this.history = Ghost(this.history@.push(HandleOp::Release));
    }

    /// Drops the last handle, reclaiming the block and returning the value
    /// it held. Only the last live handle may do this: reclaiming earlier
    /// would leave dangling handles behind.
    pub fn into_inner(this: Arc<T>) -> (data: T)
        requires
            this.count_spec() == 1,
        ensures
            data == this@,
    {
        this.inner.data
    }
}

} // verus!
