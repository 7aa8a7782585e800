use vstd::prelude::*;

use crate::atom::Atom;

verus! {

/// An ordered group of compensable units, itself compensable: undoing or
/// decaying the stack does the same to every member, in reverse of push
/// order.
///
/// The result sequences that [`Stack::undo`] and [`Stack::decay`] return are
/// in firing order: entry `i` belongs to the member that was pushed `i`-th
/// from the top. The members' own result types stand as the stack's `U` and
/// `D` parameters, so that those sequences have plain types; both are
/// inferred from the member type.
#[verifier::reject_recursive_types(U)]
#[verifier::reject_recursive_types(D)]
pub struct Stack<A: Atom<Undo = U, Decay = D>, U, D> {
    atoms: Vec<A>,
    results: core::marker::PhantomData<(U, D)>,
}

impl<A: Atom<Undo = U, Decay = D>, U, D> View for Stack<A, U, D> {
    type V = Seq<A>;

    closed spec fn view(&self) -> Seq<A> {
        self.atoms@
    }
}

impl<A: Atom<Undo = U, Decay = D>, U, D> Stack<A, U, D> {
    pub fn new() -> (s: Self)
        ensures
            s@ == Seq::<A>::empty(),
    {
        Stack { atoms: Vec::new(), results: core::marker::PhantomData }
    }

    /// Append a unit; it will be compensated before every unit already in the
    /// stack.
    pub fn push(&mut self, atom: A) -> (s: &mut Self)
        ensures
            (*s)@ == old(self)@.push(atom),
            *final(self) == *final(s),
    {
        self.atoms.push(atom);
        self
    }

    /// Remove and return the most recently pushed unit without firing its
    /// compensation; ownership moves to the caller.
    pub fn pop(&mut self) -> (r: Option<A>)
        ensures
            old(self)@.len() == 0 ==> r is None && final(self)@ == old(self)@,
            old(self)@.len() > 0 ==> r == Some(old(self)@.last()) && final(self)@ == old(
                self,
            )@.drop_last(),
    {
        self.atoms.pop()
    }

    /// Fire every member's compensation, last pushed first; the results come
    /// back in that firing order.
    pub fn undo(self) -> (r: Vec<U>)
        ensures
            r@.len() == self@.len(),
            forall|i: int|
                0 <= i < self@.len() ==> self@[self@.len() - 1 - i].undo_post(#[trigger] r@[i]),
    {
        let Stack { mut atoms, results: _ } = self;
        let ghost all = atoms@;
        let mut results: Vec<U> = Vec::new();
        while atoms.len() != 0
            invariant
                all == self@,
                atoms@ == all.take(atoms@.len() as int),
                results@.len() + atoms@.len() == all.len(),
                forall|i: int|
                    0 <= i < results@.len() ==> all[all.len() - 1 - i].undo_post(
                        #[trigger] results@[i],
                    ),
            decreases atoms@.len(),
        {
            if let Some(a) = atoms.pop() {
                results.push(a.undo());
            }
        }
        results
    }

    /// Discard every member's compensation, last pushed first, collecting
    /// what each member hands back; nothing fires.
    pub fn decay(self) -> (r: Vec<D>)
        ensures
            r@.len() == self@.len(),
            forall|i: int|
                0 <= i < self@.len() ==> self@[self@.len() - 1 - i].decay_post(#[trigger] r@[i]),
    {
        let Stack { mut atoms, results: _ } = self;
        let ghost all = atoms@;
        let mut results: Vec<D> = Vec::new();
        while atoms.len() != 0
            invariant
                all == self@,
                atoms@ == all.take(atoms@.len() as int),
                results@.len() + atoms@.len() == all.len(),
                forall|i: int|
                    0 <= i < results@.len() ==> all[all.len() - 1 - i].decay_post(
                        #[trigger] results@[i],
                    ),
            decreases atoms@.len(),
        {
            if let Some(a) = atoms.pop() {
                results.push(a.decay());
            }
        }
        results
    }
}

impl<A: Atom<Undo = U, Decay = D>, U, D> Atom for Stack<A, U, D> {
    type Undo = Vec<U>;

    type Decay = Vec<D>;

    #[verifier::inline]
    open spec fn undo_post(self, r: Vec<U>) -> bool {
        &&& r@.len() == self@.len()
        &&& forall|i: int|
            0 <= i < self@.len() ==> self@[self@.len() - 1 - i].undo_post(#[trigger] r@[i])
    }

    #[verifier::inline]
    open spec fn decay_post(self, r: Vec<D>) -> bool {
        &&& r@.len() == self@.len()
        &&& forall|i: int|
            0 <= i < self@.len() ==> self@[self@.len() - 1 - i].decay_post(#[trigger] r@[i])
    }

    fn undo(self) -> (r: Vec<U>) {
        Stack::undo(self)
    }

    fn decay(self) -> (r: Vec<D>) {
        Stack::decay(self)
    }
}

/// An adapter that erases a unit's result types: undoing or decaying the
/// wrapped unit still happens exactly once, but whatever it returns is
/// discarded, so units whose results differ can be treated alike.
pub struct StackAtom<A: Atom>(A);

impl<A: Atom> StackAtom<A> {
    /// The wrapped unit.
    pub closed spec fn inner(self) -> A {
        self.0
    }

    pub fn new(atom: A) -> (s: Self)
        ensures
            s.inner() == atom,
    {
        StackAtom(atom)
    }

    /// Fire the wrapped unit's compensation and discard its result.
    pub fn undo(self) -> (r: ())
        ensures
            exists|ri: A::Undo| self.inner().undo_post(ri),
    {
        let StackAtom(atom) = self;
        let fired = atom.undo();
        proof {
            assert(self.inner().undo_post(fired));
        }
    }

    /// Decay the wrapped unit and discard what it hands back; nothing fires.
    pub fn decay(self) -> (r: ())
        ensures
            exists|ri: A::Decay| self.inner().decay_post(ri),
    {
        let StackAtom(atom) = self;
        let kept = atom.decay();
        proof {
            assert(self.inner().decay_post(kept));
        }
    }
}

impl<A: Atom> Atom for StackAtom<A> {
    type Undo = ();

    type Decay = ();

    #[verifier::inline]
    open spec fn undo_post(self, r: ()) -> bool {
        exists|ri: A::Undo| self.inner().undo_post(ri)
    }

    #[verifier::inline]
    open spec fn decay_post(self, r: ()) -> bool {
        exists|ri: A::Decay| self.inner().decay_post(ri)
    }

    fn undo(self) -> (r: ()) {
        StackAtom::undo(self)
    }

    fn decay(self) -> (r: ()) {
        StackAtom::decay(self)
    }
}

/// Composition of two compensable units of one kind into a [`Stack`], to be
/// undone or decayed together, the second before the first.
pub trait StackedAtom<U, D>: Atom<Undo = U, Decay = D> {
    fn chain(self, other: Self) -> (s: Stack<Self, U, D>)
        ensures
            s@ == seq![self, other],
    {
        let mut s = Stack::new();
        s.push(self);
        s.push(other);
        s
    }
}

impl<A: Atom<Undo = U, Decay = D>, U, D> StackedAtom<U, D> for A {
}

} // verus!
