//! A growable contiguous container.
//!
//! The container owns a backing store with room for `cap` elements, of which
//! the first `length` are live; appending past the reserved room doubles it.
//! Removal from the end hands the element back to the caller and never gives
//! reserved room back.

use vstd::prelude::*;

verus! {

/// Slots reserved after one growth step: a container with no reservation
/// reserves a single slot, any other doubles what it has.
pub open spec fn grown_cap(cap: nat) -> nat {
    if cap == 0 {
        1
    } else {
        2 * cap
    }
}

/// Slots reserved after one append at the given length and capacity: growth
/// happens exactly when the live elements already fill every reserved slot.
pub open spec fn cap_after_push(len: nat, cap: nat) -> nat {
    if len < cap {
        cap
    } else {
        grown_cap(cap)
    }
}

/// What removing the last element returns: no element when none is live.
pub open spec fn popped<T>(elems: Seq<T>) -> Option<T> {
    if elems.len() == 0 {
        None
    } else {
        Some(elems.last())
    }
}

/// The live elements after removing the last one, if any.
pub open spec fn pop_elems<T>(elems: Seq<T>) -> Seq<T> {
    if elems.len() == 0 {
        elems
    } else {
        elems.drop_last()
    }
}

/// A growable sequence of elements with amortized-constant append at the end.
///
/// The abstract value (the view) is the sequence of live elements; `cap()`
/// is the number of slots currently reserved for them. Teardown of the
/// container drops each live element exactly once and releases the backing
/// store, both done by the owned backing vector.
pub struct Vec<T> {
    /// The live elements, kept in a backing store that drops each exactly once.
    data: std::vec::Vec<T>,
    /// Number of element slots this container has reserved.
    cap: usize,
}

impl<T> View for Vec<T> {
    type V = Seq<T>;

    closed spec fn view(&self) -> Seq<T> {
        self.data@
    }
}

impl<T> Vec<T> {
    /// Number of element slots currently reserved.
    pub closed spec fn cap(&self) -> nat {
        self.cap as nat
    }

    /// Well-formed: the live elements fit in the reserved slots, and the
    /// reserved byte range stays addressable (at most `isize::MAX` slots).
    pub closed spec fn wf(&self) -> bool {
        self.data@.len() <= self.cap <= isize::MAX as usize
    }

    /// Create an empty container with no reserved slots.
    pub fn new() -> (v: Self)
        ensures
            v.wf(),
            v@ == Seq::<T>::empty(),
            v.cap() == 0,
    {
        Self { data: std::vec::Vec::new(), cap: 0 }
    }

    /// Reserve more slots: one when nothing is reserved yet, twice the
    /// current reservation otherwise. Only reserves — no element is
    /// constructed or dropped, and the live elements are untouched.
    ///
    /// The caller must have ruled out the capacity overflow that the growth
    /// policy would otherwise risk: the grown reservation has to stay within
    /// the addressable range.
    fn grow(&mut self)
        requires
            old(self).wf(),
            grown_cap(old(self).cap()) <= isize::MAX as nat,
        ensures
            final(self).wf(),
            final(self)@ == old(self)@,
            final(self).cap() == grown_cap(old(self).cap()),
    {
        let new_cap: usize = if self.cap == 0 {
            1
        } else {
            2 * self.cap
        };
        self.data.reserve(new_cap - self.data.len());
        self.cap = new_cap;
    }

    /// Append `elem` as the new last element, growing the reservation first
    /// when every reserved slot is already live.
    ///
    /// The caller must have ruled out capacity overflow: when the container
    /// is full, the grown reservation has to stay within the addressable
    /// range (the container treats exceeding it as a fatal condition, so no
    /// recoverable error exists for it).
    pub fn push(&mut self, elem: T)
        requires
            old(self).wf(),
            old(self)@.len() == old(self).cap() ==> grown_cap(old(self).cap()) <= isize::MAX as nat,
        ensures
            final(self).wf(),
            final(self)@ == old(self)@.push(elem),
            final(self).cap() == cap_after_push(old(self)@.len(), old(self).cap()),
            (final(self)@, final(self).cap()) == step(old(self)@, old(self).cap(), Op::Push(elem)),
    {
        if self.data.len() == self.cap {
            self.grow();
        }
        self.data.push(elem);
    }

    /// Remove and return the last element, or report that none is live.
    /// Ownership of the element passes to the caller; the reserved slots are
    /// never given back.
    pub fn pop(&mut self) -> (r: Option<T>)
        requires
            old(self).wf(),
        ensures
            final(self).wf(),
            r == popped(old(self)@),
            final(self)@ == pop_elems(old(self)@),
            final(self).cap() == old(self).cap(),
            (final(self)@, final(self).cap()) == step(old(self)@, old(self).cap(), Op::Pop),
    {
        self.data.pop()
    }

    /// Number of live elements.
    pub fn len(&self) -> (n: usize)
        ensures
            n == self@.len(),
    {
        self.data.len()
    }

    /// Number of reserved element slots.
    pub fn capacity(&self) -> (c: usize)
        ensures
            c == self.cap(),
    {
        self.cap
    }

    /// Read-only view of the live elements: exactly the slots below the
    /// length, in order, and nothing of the reserved region beyond them.
    /// Taking the view allocates nothing and touches no element.
    pub fn as_slice(&self) -> (s: &[T])
        ensures
            s@ == self@,
    {
        self.data.as_slice()
    }

    /// Mutable view of the live elements: the same window as [`Self::as_slice`],
    /// open for element-wise writes. The window cannot add or remove
    /// elements, so a caller that keeps its length intact hands back a
    /// well-formed container with its reservation unchanged.
    pub fn as_mut_slice(&mut self) -> (s: &mut [T])
        requires
            old(self).wf(),
        ensures
            s@ == old(self)@,
            final(self)@ == final(s)@,
            final(self).cap() == old(self).cap(),
            final(s)@.len() <= old(self).cap() ==> final(self).wf(),
    {
        self.data.as_mut_slice()
    }
}

/// One abstract operation on a container: an append of a given element, or a
/// removal of the last element.
pub enum Op<T> {
    Push(T),
    Pop,
}

/// The abstract effect of one operation on the live elements and the
/// reserved slots — exactly what the contracts of [`Vec::push`] and
/// [`Vec::pop`] state of one call.
pub open spec fn step<T>(elems: Seq<T>, cap: nat, op: Op<T>) -> (Seq<T>, nat) {
    match op {
        Op::Push(x) => (elems.push(x), cap_after_push(elems.len(), cap)),
        Op::Pop => (pop_elems(elems), cap),
    }
}

/// The abstract effect of a sequence of operations, applied in order.
pub open spec fn run<T>(elems: Seq<T>, cap: nat, ops: Seq<Op<T>>) -> (Seq<T>, nat)
    decreases ops.len(),
{
    if ops.len() == 0 {
        (elems, cap)
    } else {
        let next = step(elems, cap, ops[0]);
        run(next.0, next.1, ops.drop_first())
    }
}

/// A sequence of appends, one per element, in order, with no removals.
pub open spec fn pushes<T>(xs: Seq<T>) -> Seq<Op<T>> {
    xs.map_values(|x: T| Op::Push(x))
}

/// One append keeps the live elements within the reserved slots, and never
/// reserves less than before.
proof fn lemma_cap_after_push_covers(len: nat, cap: nat)
    requires
        len <= cap,
    ensures
        len + 1 <= cap_after_push(len, cap),
        cap <= cap_after_push(len, cap),
{
}

/// Law: across any sequence of appends and removals, the number of live
/// elements never exceeds the number of reserved slots.
pub proof fn lemma_len_within_cap<T>(elems: Seq<T>, cap: nat, ops: Seq<Op<T>>)
    requires
        elems.len() <= cap,
    ensures
        run(elems, cap, ops).0.len() <= run(elems, cap, ops).1,
    decreases ops.len(),
{
    if ops.len() > 0 {
        let next = step(elems, cap, ops[0]);
        if let Op::Push(_) = ops[0] {
            lemma_cap_after_push_covers(elems.len(), cap);
        }
        lemma_len_within_cap(next.0, next.1, ops.drop_first());
    }
}

/// Law: the reserved slots never shrink across any sequence of appends and
/// removals.
pub proof fn lemma_cap_monotone<T>(elems: Seq<T>, cap: nat, ops: Seq<Op<T>>)
    ensures
        cap <= run(elems, cap, ops).1,
    decreases ops.len(),
{
    if ops.len() > 0 {
        let next = step(elems, cap, ops[0]);
        lemma_cap_monotone(next.0, next.1, ops.drop_first());
    }
}

/// Law: the first append into an unreserved container reserves exactly one
/// slot; an append into a full container exactly doubles the reservation;
/// an append into a container with a free slot leaves the reservation
/// unchanged. A removal never changes it.
pub proof fn lemma_growth_policy<T>(elems: Seq<T>, cap: nat, x: T)
    ensures
        cap == 0 ==> step(elems, cap, Op::Push(x)).1 == 1,
        elems.len() == cap && cap > 0 ==> step(elems, cap, Op::Push(x)).1 == 2 * cap,
        elems.len() < cap ==> step(elems, cap, Op::Push(x)).1 == cap,
        step(elems, cap, Op::Pop).1 == cap,
{
}

/// Appends starting from any well-formed state extend the live elements in
/// order, and the reservation keeps covering them.
proof fn lemma_pushes_general<T>(elems: Seq<T>, cap: nat, xs: Seq<T>)
    requires
        elems.len() <= cap,
    ensures
        run(elems, cap, pushes(xs)).0 == elems + xs,
        run(elems, cap, pushes(xs)).0.len() <= run(elems, cap, pushes(xs)).1,
    decreases xs.len(),
{
    if xs.len() == 0 {
        assert(elems + xs =~= elems);
    } else {
        assert(pushes(xs)[0] == Op::Push(xs[0]));
        assert(pushes(xs).drop_first() =~= pushes(xs.drop_first()));
        lemma_cap_after_push_covers(elems.len(), cap);
        lemma_pushes_general(elems.push(xs[0]), cap_after_push(elems.len(), cap), xs.drop_first());
        assert(elems.push(xs[0]) + xs.drop_first() =~= elems + xs);
    }
}

/// Law: appending N elements to the empty container, with no removals,
/// leaves exactly those N elements live, in append order, and the
/// reservation covers all of them.
pub proof fn lemma_appends_from_empty<T>(xs: Seq<T>)
    ensures
        run(Seq::<T>::empty(), 0, pushes(xs)).0 == xs,
        run(Seq::<T>::empty(), 0, pushes(xs)).0.len() == xs.len(),
        xs.len() <= run(Seq::<T>::empty(), 0, pushes(xs)).1,
{
    lemma_pushes_general(Seq::<T>::empty(), 0, xs);
    assert(Seq::<T>::empty() + xs =~= xs);
}

/// Law: appending an element and immediately removing the last element
/// hands back exactly that element and restores the live elements — in
/// particular their number — to the pre-append value.
pub proof fn lemma_push_pop_roundtrip<T>(elems: Seq<T>, x: T)
    ensures
        popped(elems.push(x)) == Some(x),
        pop_elems(elems.push(x)) == elems,
{
    assert(elems.push(x).drop_last() =~= elems);
}

/// Law: removing from an empty container yields no element and alters
/// nothing — neither the live elements nor the reserved slots.
pub proof fn lemma_pop_empty<T>(cap: nat)
    ensures
        popped(Seq::<T>::empty()) == None::<T>,
        step(Seq::<T>::empty(), cap, Op::Pop) == (Seq::<T>::empty(), cap),
{
}

} // verus!
