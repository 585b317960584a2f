//! The single-threaded reference-counted ownership pointer.
//!
//! An unverified implementation keeps one heap block of value plus counter
//! and lets many handles alias it through raw pointers; the counter then
//! tracks how many handles are live, and the block is freed by whichever
//! handle drops last. Verus admits no such aliasing, so the block is held
//! as one owned value and every handle beyond the first is a [`RcHandle`]
//! token: duplicating and dropping a handle are explicit operations on the
//! block that move the counter, and consuming the block itself is the final
//! release. The counting protocol — the part worth proving — is exactly the
//! one in [`crate::counter`], and every block carries the run of steps it
//! has seen as ghost history, tied to the counter by its validity invariant.

use crate::cell::Cell;
use crate::counter::HandleOp;
use crate::counter::admissible;
use crate::counter::count_after;
use crate::counter::lemma_admissible_push;
use crate::counter::lemma_count_after_push;
use vstd::prelude::*;

verus! {

/// One additional live handle on an [`Rc`] block. Giving it back to
/// [`Rc::drop_handle`] is what lowers the count, taking the place of a
/// destructor side effect.
pub struct RcHandle {
    _private: (),
}

struct RcInner<T> {
    value: T,
    ref_count: Cell<usize>,
}

/// A heap block of value plus non-atomic counter, together with the handles
/// that share it. The counter always equals the number of live handles: the
/// block value itself stands for one handle, each [`RcHandle`] for one more.
/// Nothing here is synchronized, so a block and its handles belong to one
/// thread.
pub struct Rc<T> {
    inner: RcInner<T>,
    history: Ghost<Seq<HandleOp>>,
}

impl<T> View for Rc<T> {
    type V = T;

    closed spec fn view(&self) -> T {
        self.inner.value
    }
}

impl<T> Rc<T> {
    /// The current value of the counter.
    pub closed spec fn count_spec(self) -> usize {
        self.inner.ref_count@
    }

    /// The run of retain and release steps this block has seen.
    pub closed spec fn history(self) -> Seq<HandleOp> {
        self.history@
    }

    /// Validity: the counter is the number of live handles after the
    /// recorded run, the run is admissible, and at least the block's own
    /// handle is live.
    pub open spec fn wf(self) -> bool {
        &&& self.count_spec() as int == count_after(self.history())
        &&& admissible(self.history())
        &&& self.count_spec() >= 1
    }

    /// Allocates a block holding `value` with one live handle.
    pub fn new(value: T) -> (block: Rc<T>)
        ensures
            block@ == value,
            block.count_spec() == 1,
            block.history() == Seq::<HandleOp>::empty(),
            block.wf(),
    {
        Rc {
            inner: RcInner { value, ref_count: Cell::new(1) },
            history: Ghost(Seq::empty()),
        }
    }

    /// Reads the number of live handles, for diagnostics and tests.
    pub fn count(this: &Rc<T>) -> (live: usize)
        ensures
            live == this.count_spec(),
    {
        this.inner.ref_count.get()
    }

    /// Read-only access to the shared value. Exclusive mutation is out of
    /// scope for this pointer: handles grant shared, read-only access only.
    pub fn get(this: &Rc<T>) -> (value: &T)
        ensures
            *value == this@,
    {
        &this.inner.value
    }

    /// Duplicates a handle: raises the counter by one — without any overflow
    /// guard, as single-threaded use bounds the count in practice — and
    /// returns a new handle on the same block.
    pub fn clone(this: &mut Rc<T>) -> (handle: RcHandle)
        requires
            old(this).wf(),
            old(this).count_spec() < usize::MAX,
        ensures
            final(this).wf(),
            final(this)@ == old(this)@,
            final(this).count_spec() == old(this).count_spec() + 1,
            final(this).history() == old(this).history().push(HandleOp::Retain),
    {
        let live = this.inner.ref_count.get();
        this.inner.ref_count.set(live + 1);
        proof {
            lemma_count_after_push(old(this).history@, HandleOp::Retain);
            lemma_admissible_push(old(this).history@, HandleOp::Retain);
        }
        this.history = Ghost(this.history@.push(HandleOp::Retain));
        RcHandle { _private: () }
    }

    /// Drops a duplicated handle: lowers the counter by one and leaves the
    /// block alive. A token handle exists only while the counter is at least
    /// two, so this is never the step that reclaims the block.
    pub fn drop_handle(this: &mut Rc<T>, handle: RcHandle)
        requires
            old(this).wf(),
            old(this).count_spec() >= 2,
        ensures
            final(this).wf(),
            final(this)@ == old(this)@,
            final(this).count_spec() == old(this).count_spec() - 1,
            final(this).history() == old(this).history().push(HandleOp::Release),
    {
        let _consumed = handle;
        let live = this.inner.ref_count.get();
        this.inner.ref_count.set(live - 1);
        proof {
            lemma_count_after_push(old(this).history@, HandleOp::Release);
            lemma_admissible_push(old(this).history@, HandleOp::Release);
        }
        this.history = Ghost(this.history@.push(HandleOp::Release));
    }

    /// Drops the last handle, reclaiming the block and returning the value
    /// it held. Only the last live handle may do this: reclaiming earlier
    /// would leave dangling handles behind.
    pub fn into_inner(this: Rc<T>) -> (value: T)
        requires
            this.count_spec() == 1,
        ensures
            value == this@,
    {
        this.inner.value
    }
}

} // verus!
