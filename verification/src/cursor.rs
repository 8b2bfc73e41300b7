use vstd::prelude::*;

verus! {

/// A cursor over a `Vec<T>` that visits the elements one at a time and lets
/// the caller decide, for each visited element, whether to remove it.
///
/// The cursor owns the vector for the whole traversal, so no other code can
/// touch the storage while it is walked; `into_inner` gives the vector back.
/// At most one `Take` handle derived from a cursor is live at a time: `next`
/// requires that the previous handle has been resolved, and every resolution
/// path clears the `outstanding` flag exactly once.
pub struct IterTake<T> {
    vec: Vec<T>,
    index: usize,
    outstanding: bool,
}

/// A single-use handle to the element currently visited by an `IterTake`.
///
/// A handle is resolved exactly once, by one of three moves that consume it:
/// `take` (order-preserving removal), `take_unstable` (swap removal), or
/// `keep` (no removal; the cursor advances). Each resolving method takes the
/// owning cursor as an argument, so the handle itself never aliases the
/// backing storage.
pub struct Take {
    index: usize,
}

impl Take {
    /// The position in the backing vector that this handle is bound to.
    pub closed spec fn idx(self) -> int {
        self.index as int
    }
}

impl<T> IterTake<T> {
    /// The elements currently held by the backing vector.
    pub closed spec fn elems(self) -> Seq<T> {
        self.vec@
    }

    /// The position the cursor will visit next (or is visiting, while a
    /// handle is outstanding).
    pub closed spec fn pos(self) -> int {
        self.index as int
    }

    /// True exactly while a handle emitted by `next` has not been resolved.
    pub closed spec fn pending(self) -> bool {
        self.outstanding
    }

    /// The cursor's invariant: the position never passes the end of the
    /// vector, and an outstanding handle is always bound to a real slot.
    pub open spec fn wf(self) -> bool {
        &&& 0 <= self.pos() <= self.elems().len()
        &&& (self.pending() ==> self.pos() < self.elems().len())
    }

    /// Begins a traversal of `vec`, positioned before its first element.
    pub fn new(vec: Vec<T>) -> (it: Self)
        ensures
            it.wf(),
            it.elems() == vec@,
            it.pos() == 0,
            !it.pending(),
    {
        IterTake { vec, index: 0, outstanding: false }
    }

    /// Emits a handle to the element at the current position, or `None` once
    /// the position has reached the end of the vector.
    ///
    /// The precondition rules out a second live handle: a caller must resolve
    /// the handle returned by the previous call before calling `next` again,
    /// since two live handles would be two mutable views of the same storage.
    pub fn next(&mut self) -> (r: Option<Take>)
        requires
            old(self).wf(),
            !old(self).pending(),
        ensures
            final(self).wf(),
            final(self).elems() == old(self).elems(),
            final(self).pos() == old(self).pos(),
            r is Some <==> old(self).pos() < old(self).elems().len(),
            final(self).pending() <==> r is Some,
            (r matches Some(t) ==> t.idx() == old(self).pos()),
    {
        if self.index == self.vec.len() {
            return None;
        }
        self.outstanding = true;
        Some(Take { index: self.index })
    }

    /// Ends the traversal and returns the backing vector.
    pub fn into_inner(self) -> (v: Vec<T>)
        requires
            !self.pending(),
        ensures
            v@ == self.elems(),
    {
        self.vec
    }
}

impl Take {
    /// Removes the visited element, preserving the order of the rest, and
    /// returns it. Consumes the handle.
    ///
    /// The cursor's position is left unchanged: the removal shifts the next
    /// element into the slot this handle was bound to, so the following
    /// `next` call visits it there.
    pub fn take<T>(self, it: &mut IterTake<T>) -> (v: T)
        requires
            old(it).wf(),
            old(it).pending(),
            self.idx() == old(it).pos(),
        ensures
            final(it).wf(),
            !final(it).pending(),
            final(it).pos() == old(it).pos(),
            v == old(it).elems()[old(it).pos()],
            final(it).elems() == old(it).elems().remove(old(it).pos()),
    {
        it.outstanding = false;
        it.vec.remove(self.index)
    }

    /// Removes the visited element in constant time by moving the last
    /// element of the vector into its slot, and returns it. Consumes the
    /// handle. The order of the remaining elements may change.
    ///
    /// As with `take`, the cursor's position is left unchanged.
    pub fn take_unstable<T>(self, it: &mut IterTake<T>) -> (v: T)
        requires
            old(it).wf(),
            old(it).pending(),
            self.idx() == old(it).pos(),
        ensures
            final(it).wf(),
            !final(it).pending(),
            final(it).pos() == old(it).pos(),
            v == old(it).elems()[old(it).pos()],
            final(it).elems() == old(it).elems().update(
                old(it).pos(),
                old(it).elems().last(),
            ).drop_last(),
    {
        it.outstanding = false;
        it.vec.swap_remove(self.index)
    }

    /// Resolves the handle without removing anything: the element stays and
    /// the cursor advances past it. Consumes the handle.
    pub fn keep<T>(self, it: &mut IterTake<T>)
        requires
            old(it).wf(),
            old(it).pending(),
            self.idx() == old(it).pos(),
        ensures
            final(it).wf(),
            !final(it).pending(),
            final(it).elems() == old(it).elems(),
            final(it).pos() == old(it).pos() + 1,
    {
        let n: usize = it.vec.len();
        proof {
            assert(it.index < n);
        }
        it.outstanding = false;
        it.index = it.index + 1;
    }

    /// Read access to the visited element.
    pub fn get<'a, T>(&self, it: &'a IterTake<T>) -> (r: &'a T)
        requires
            it.wf(),
            it.pending(),
            self.idx() == it.pos(),
        ensures
            *r == it.elems()[it.pos()],
    {
        &it.vec[self.index]
    }

    /// Write access to the visited element: replaces it with `value`. The
    /// handle stays live and must still be resolved.
    pub fn set<T>(&self, it: &mut IterTake<T>, value: T)
        requires
            old(it).wf(),
            old(it).pending(),
            self.idx() == old(it).pos(),
        ensures
            final(it).wf(),
            final(it).pending(),
            final(it).pos() == old(it).pos(),
            final(it).elems() == old(it).elems().update(old(it).pos(), value),
    {
        it.vec[self.index] = value;
    }
}

/// The entry point: anything with ordered contents can hand them to an
/// `IterTake` traversal.
pub trait IterTakeExt: Sized {
    type Item;

    /// The contents that the traversal will visit, in order.
    spec fn contents(self) -> Seq<Self::Item>;

    /// Begins a removal-capable traversal of `self`'s contents.
    fn iter_take(self) -> (it: IterTake<Self::Item>)
        ensures
            it.wf(),
            !it.pending(),
            it.pos() == 0,
            it.elems() == self.contents();
}

impl<T> IterTakeExt for Vec<T> {
    type Item = T;

    open spec fn contents(self) -> Seq<T> {
        self@
    }

    fn iter_take(self) -> (it: IterTake<T>) {
        IterTake::new(self)
    }
}

} // verus!
