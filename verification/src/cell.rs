//! Single-threaded interior-mutability cells.
//!
//! In unverified code these cells would mutate their interior through raw
//! pointers derived from shared references, and the aliasing discipline
//! would rest on manually reasoned invariants. Under Verus the discipline
//! is carried by ownership itself: reading hands out a shared borrow,
//! every mutating operation takes the cell exclusively, and the contracts
//! state exactly what each operation does to the contained value.

use vstd::prelude::*;

verus! {

/// The raw cell the other cells build on: a wrapper that marks its interior
/// as "mutated in place by whoever holds the cell". It performs no locking
/// and no runtime checks; the accessors expose the interior directly.
pub struct UnsafeCell<T> {
    value: T,
}

impl<T> View for UnsafeCell<T> {
    type V = T;

    closed spec fn view(&self) -> T {
        self.value
    }
}

impl<T> UnsafeCell<T> {
    /// Wraps `value`, taking ownership of it.
    pub fn new(value: T) -> (cell: UnsafeCell<T>)
        ensures
            cell@ == value,
    {
        UnsafeCell { value }
    }

    /// Consumes the cell and returns the contained value.
    pub fn into_inner(self) -> (value: T)
        ensures
            value == self@,
    {
        self.value
    }

    /// Read-only access to the interior of a borrowed cell.
    pub fn get(&self) -> (interior: &T)
        ensures
            *interior == self@,
    {
        &self.value
    }

    /// Exclusive access to the interior. The caller already holds the cell
    /// exclusively, so handing out an exclusive borrow is always sound.
    pub fn get_mut(&mut self) -> (interior: &mut T)
        ensures
            *interior == old(self)@,
            final(self)@ == *final(interior),
    {
        &mut self.value
    }

    /// Access to the interior of a cell reached through a reference rather
    /// than held directly.
    pub fn raw_get(this: &UnsafeCell<T>) -> (interior: &T)
        ensures
            *interior == this@,
    {
        &this.value
    }
}

/// A cell for values that can be read out by plain duplication. All access
/// is by whole value: a read copies the interior out, a write replaces it.
/// No reference to the contained value escapes this type's own interface.
pub struct Cell<T> {
    value: UnsafeCell<T>,
}

impl<T> View for Cell<T> {
    type V = T;

    closed spec fn view(&self) -> T {
        self.value@
    }
}

impl<T> Cell<T> {
    /// Wraps `value`, taking ownership of it.
    pub fn new(value: T) -> (cell: Cell<T>)
        ensures
            cell@ == value,
    {
        Cell { value: UnsafeCell::new(value) }
    }

    /// Stores `val` and returns the value it displaces.
    pub fn replace(&mut self, val: T) -> (previous: T)
        ensures
            final(self)@ == val,
            previous == old(self)@,
    {
        let mut displaced = UnsafeCell::new(val);
        core::mem::swap(&mut self.value, &mut displaced);
        displaced.into_inner()
    }

    /// Consumes the cell and returns the contained value.
    pub fn into_inner(self) -> (value: T)
        ensures
            value == self@,
    {
        self.value.into_inner()
    }

    /// Stores `val`, dropping the value it displaces.
    pub fn set(&mut self, val: T)
        ensures
            final(self)@ == val,
    {
        let _previous = self.replace(val);
    }

    /// Exchanges the contents of the two cells. Exclusive access to both
    /// rules out the one hazardous case — a cell swapped with itself, which
    /// would touch the same interior twice — so no identity check is needed.
    pub fn swap(&mut self, other: &mut Cell<T>)
        ensures
            final(self)@ == old(other)@,
            final(other)@ == old(self)@,
    {
        core::mem::swap(&mut self.value, &mut other.value)
    }

    /// Read-only access to the interior of a borrowed cell.
    pub fn as_ptr(&self) -> (interior: &T)
        ensures
            *interior == self@,
    {
        self.value.get()
    }

    /// Exclusive access to the interior.
    pub fn get_mut(&mut self) -> (interior: &mut T)
        ensures
            *interior == old(self)@,
            final(self)@ == *final(interior),
    {
        self.value.get_mut()
    }
}

impl<T: Copy> Cell<T> {
    /// Reads a duplicate of the current value.
    pub fn get(&self) -> (value: T)
        ensures
            value == self@,
    {
        *self.value.get()
    }

    /// Reads the current value, applies `f`, writes the result back, and
    /// returns it. The read and the write are two separate accesses; the
    /// pair is not atomic.
    pub fn update<F: FnOnce(T) -> T>(&mut self, f: F) -> (new_value: T)
        requires
            call_requires(f, (old(self)@,)),
        ensures
            call_ensures(f, (old(self)@,), new_value),
            final(self)@ == new_value,
    {
        let old_value = self.get();
        let new_value = f(old_value);
        self.set(new_value);
        new_value
    }
}

impl<T: Copy> Clone for Cell<T> {
    /// Copies the current value into a new, independent cell.
    fn clone(&self) -> (duplicate: Self)
        ensures
            duplicate@ == self@,
    {
        Cell::new(self.get())
    }
}

impl<T: Default> Cell<T> {
    /// Replaces the contents with `T`'s default value and returns the value
    /// that was displaced.
    pub fn take(&mut self) -> (previous: T)
        ensures
            previous == old(self)@,
            call_ensures(T::default, (), final(self)@),
    {
        self.replace(T::default())
    }
}

/// The borrow state of a [`RefCell`]: no live guards, `n >= 1` live shared
/// guards, or one live exclusive guard. `Shared` and `Exclusive` are distinct
/// variants of one tag, so the two kinds of access can never be recorded at
/// the same time.
#[derive(Clone, Copy)]
pub enum RefState {
    Unshared,
    Shared(usize),
    Exclusive,
}

/// A shared borrow may be granted unless an exclusive guard is live.
pub open spec fn can_share(s: RefState) -> bool {
    !(s is Exclusive)
}

/// An exclusive borrow may be granted only when no guard at all is live.
pub open spec fn can_exclusive(s: RefState) -> bool {
    s is Unshared
}

/// The tag after a shared borrow is granted.
pub open spec fn after_share(s: RefState) -> RefState {
    match s {
        RefState::Unshared => RefState::Shared(1),
        RefState::Shared(n) => RefState::Shared((n + 1) as usize),
        RefState::Exclusive => s,
    }
}

/// The tag after a shared guard is given back.
pub open spec fn after_release_shared(s: RefState) -> RefState {
    match s {
        RefState::Shared(n) => if n <= 1 {
            RefState::Unshared
        } else {
            RefState::Shared((n - 1) as usize)
        },
        _ => s,
    }
}

/// A `Shared` tag always records at least one live guard.
pub open spec fn state_wf(s: RefState) -> bool {
    s matches RefState::Shared(n) ==> n >= 1
}

/// The shared count has room for one more guard.
pub open spec fn shared_not_full(s: RefState) -> bool {
    s matches RefState::Shared(n) ==> n < usize::MAX
}

/// At most one kind of access is ever admitted: a state that admits an
/// exclusive borrow has no live guard of either kind, and while an exclusive
/// guard is live neither kind of borrow is granted.
pub proof fn lemma_borrow_exclusion(s: RefState)
    ensures
        can_exclusive(s) ==> !(s is Shared) && !(s is Exclusive),
        s is Exclusive ==> !can_share(s) && !can_exclusive(s),
        s is Shared ==> !can_exclusive(s),
{
}

/// Releasing restores availability: after an exclusive guard is given back,
/// and after the last shared guard is given back, both kinds of borrow are
/// granted again.
pub proof fn lemma_release_reenables(s: RefState)
    ensures
        s matches RefState::Shared(n) && n == 1 ==> can_share(after_release_shared(s))
            && can_exclusive(after_release_shared(s)),
        s is Shared ==> can_share(after_release_shared(s)),
        can_share(RefState::Unshared) && can_exclusive(RefState::Unshared),
{
}

/// A runtime-checked borrow-tracking cell: shared or exclusive access to the
/// interior is granted against a tag that records the live guards, and a
/// refused request is reported as `None`, never queued. Guards are plain
/// values; giving one back to [`RefCell::release`] or [`RefCell::release_mut`]
/// is what ends the borrow, taking the place of a destructor side effect.
pub struct RefCell<T> {
    value: UnsafeCell<T>,
    state: Cell<RefState>,
}

/// A live shared borrow of a [`RefCell`]. Grants read access through
/// [`RefCell::get`] until it is given back.
pub struct Ref {
    _private: (),
}

/// The live exclusive borrow of a [`RefCell`]. Grants read and write access
/// through [`RefCell::get_mut`] until it is given back.
pub struct RefMut {
    _private: (),
}

impl<T> View for RefCell<T> {
    type V = T;

    closed spec fn view(&self) -> T {
        self.value@
    }
}

impl<T> RefCell<T> {
    /// The current borrow tag.
    pub closed spec fn borrow_state(self) -> RefState {
        self.state@
    }

    /// Validity of the tag: a `Shared` tag records at least one guard.
    pub open spec fn wf(self) -> bool {
        state_wf(self.borrow_state())
    }

    /// Wraps `value` with no borrow outstanding.
    pub fn new(value: T) -> (cell: RefCell<T>)
        ensures
            cell@ == value,
            cell.borrow_state() == RefState::Unshared,
            cell.wf(),
    {
        RefCell { value: UnsafeCell::new(value), state: Cell::new(RefState::Unshared) }
    }

    /// Requests a shared borrow. Granted — with the shared count raised by
    /// one — unless an exclusive guard is live; a refusal changes nothing.
    pub fn borrow(&mut self) -> (guard: Option<Ref>)
        requires
            old(self).wf(),
            shared_not_full(old(self).borrow_state()),
        ensures
            final(self)@ == old(self)@,
            final(self).wf(),
            guard is Some <==> can_share(old(self).borrow_state()),
            can_share(old(self).borrow_state()) ==> final(self).borrow_state() == after_share(
                old(self).borrow_state(),
            ),
            !can_share(old(self).borrow_state()) ==> final(self).borrow_state() == old(
                self,
            ).borrow_state(),
    {
        match self.state.get() {
            RefState::Unshared => {
                self.state.set(RefState::Shared(1));
                Some(Ref { _private: () })
            },
            RefState::Shared(n) => {
                self.state.set(RefState::Shared(n + 1));
                Some(Ref { _private: () })
            },
            RefState::Exclusive => None,
        }
    }

    /// Requests the exclusive borrow. Granted only when no guard is live;
    /// a refusal changes nothing.
    pub fn borrow_mut(&mut self) -> (guard: Option<RefMut>)
        requires
            old(self).wf(),
        ensures
            final(self)@ == old(self)@,
            final(self).wf(),
            guard is Some <==> can_exclusive(old(self).borrow_state()),
            can_exclusive(old(self).borrow_state()) ==> final(self).borrow_state()
                == RefState::Exclusive,
            !can_exclusive(old(self).borrow_state()) ==> final(self).borrow_state() == old(
                self,
            ).borrow_state(),
    {
        match self.state.get() {
            RefState::Unshared => {
                self.state.set(RefState::Exclusive);
                Some(RefMut { _private: () })
            },
            _ => None,
        }
    }

    /// Reads the interior under a live shared guard.
    pub fn get(&self, _guard: &Ref) -> (interior: &T)
        requires
            self.borrow_state() is Shared,
        ensures
            *interior == self@,
    {
        self.value.get()
    }

    /// Reads and writes the interior under the live exclusive guard.
    pub fn get_mut(&mut self, _guard: &RefMut) -> (interior: &mut T)
        requires
            old(self).borrow_state() is Exclusive,
        ensures
            *interior == old(self)@,
            final(self)@ == *final(interior),
            final(self).borrow_state() == old(self).borrow_state(),
            final(self).wf(),
    {
        self.value.get_mut()
    }

    /// Gives a shared guard back, lowering the shared count by one; the last
    /// shared guard returns the tag to `Unshared`. A guard can only exist
    /// while the tag is `Shared`, so any other tag here would mean the state
    /// machine itself is broken; that case is excluded rather than repaired.
    pub fn release(&mut self, guard: Ref)
        requires
            old(self).wf(),
            old(self).borrow_state() is Shared,
        ensures
            final(self)@ == old(self)@,
            final(self).wf(),
            final(self).borrow_state() == after_release_shared(old(self).borrow_state()),
    {
        let _consumed = guard;
        match self.state.get() {
            RefState::Shared(n) => {
                if n == 1 {
                    self.state.set(RefState::Unshared);
                } else {
                    self.state.set(RefState::Shared(n - 1));
                }
            },
            _ => {},
        }
    }

    /// Gives the exclusive guard back, returning the tag to `Unshared`. The
    /// guard can only exist while the tag is `Exclusive`; any other tag here
    /// would mean the state machine itself is broken, and that case is
    /// excluded rather than repaired.
    pub fn release_mut(&mut self, guard: RefMut)
        requires
            old(self).borrow_state() is Exclusive,
        ensures
            final(self)@ == old(self)@,
            final(self).wf(),
            final(self).borrow_state() == RefState::Unshared,
    {
        let _consumed = guard;
        match self.state.get() {
            RefState::Exclusive => {
                self.state.set(RefState::Unshared);
            },
            _ => {},
        }
    }
}

} // verus!
