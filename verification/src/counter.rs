//! The handle-counting protocol shared by the two reference-counted
//! pointers.
//!
//! Both pointers follow the same allocation and reclamation protocol and
//! differ only in how the counter is guarded; the protocol itself is stated
//! once, here, as a state machine over runs of retain and release steps.
//! A run starts with the single handle that the allocating constructor
//! returns, and the count after a run is the number of live handles.

use vstd::prelude::*;

verus! {

/// One step of the protocol: a live handle is duplicated (`Retain`) or a
/// live handle is given up (`Release`).
#[derive(Clone, Copy)]
pub enum HandleOp {
    Retain,
    Release,
}

/// The number of live handles after the run `ops`, starting from the single
/// handle held at allocation.
pub open spec fn count_after(ops: Seq<HandleOp>) -> int
    decreases ops.len(),
{
    if ops.len() == 0 {
        1
    } else {
        count_after(ops.drop_last()) + (if ops.last() is Retain {
            1int
        } else {
            -1int
        })
    }
}

/// The number of retain steps in `ops`.
pub open spec fn retains(ops: Seq<HandleOp>) -> int
    decreases ops.len(),
{
    if ops.len() == 0 {
        0
    } else {
        retains(ops.drop_last()) + (if ops.last() is Retain {
            1int
        } else {
            0int
        })
    }
}

/// The number of release steps in `ops`.
pub open spec fn releases(ops: Seq<HandleOp>) -> int
    decreases ops.len(),
{
    if ops.len() == 0 {
        0
    } else {
        releases(ops.drop_last()) + (if ops.last() is Release {
            1int
        } else {
            0int
        })
    }
}

/// A run is admissible when every step acts on a live handle: at least one
/// handle is live just before each step.
pub open spec fn admissible(ops: Seq<HandleOp>) -> bool {
    forall|i: int| 0 <= i < ops.len() ==> count_after(#[trigger] ops.take(i)) >= 1
}

/// Appending a step moves the count by exactly one, up for a retain and
/// down for a release.
pub proof fn lemma_count_after_push(ops: Seq<HandleOp>, op: HandleOp)
    ensures
        count_after(ops.push(op)) == count_after(ops) + (if op is Retain {
            1int
        } else {
            -1int
        }),
{
    assert(ops.push(op).drop_last() =~= ops);
    assert(ops.push(op).last() == op);
}

/// An admissible run stays admissible when a step is appended while a
/// handle is still live.
pub proof fn lemma_admissible_push(ops: Seq<HandleOp>, op: HandleOp)
    requires
        admissible(ops),
        count_after(ops) >= 1,
    ensures
        admissible(ops.push(op)),
{
    let extended = ops.push(op);
    assert forall|i: int| 0 <= i < extended.len() implies count_after(
        #[trigger] extended.take(i),
    ) >= 1 by {
        assert(extended.take(i) =~= ops.take(i));
        if i == ops.len() {
            assert(ops.take(i) =~= ops);
        }
    }
}

/// The count is the balance of the run: the one initial handle, plus the
/// retains, minus the releases.
pub proof fn lemma_count_balance(ops: Seq<HandleOp>)
    ensures
        count_after(ops) == 1 + retains(ops) - releases(ops),
    decreases ops.len(),
{
    if ops.len() > 0 {
        lemma_count_balance(ops.drop_last());
    }
}

/// While handles remain — the releases have not outnumbered the retains —
/// at least one handle is live, so the block is never reclaimed early.
pub proof fn lemma_no_premature_reclaim(ops: Seq<HandleOp>)
    requires
        releases(ops) <= retains(ops),
    ensures
        count_after(ops) >= 1,
{
    lemma_count_balance(ops);
}

/// In any admissible order of `n` retains and `n + 1` releases, a handle is
/// still live before every step and no handle is live after the last one:
/// the count reaches zero exactly once, at the final release, so the block
/// is reclaimed exactly once — neither freed twice nor leaked.
pub proof fn lemma_single_reclamation(ops: Seq<HandleOp>)
    requires
        admissible(ops),
        releases(ops) == retains(ops) + 1,
    ensures
        ops.len() > 0,
        count_after(ops) == 0,
        forall|i: int| 0 <= i < ops.len() ==> count_after(#[trigger] ops.take(i)) >= 1,
{
    lemma_count_balance(ops);
    if ops.len() == 0 {
        assert(retains(ops) == 0 && releases(ops) == 0);
    }
}

} // verus!
