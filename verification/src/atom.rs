use vstd::prelude::*;

verus! {

/// A one-shot compensable unit: a unit is either undone (its compensation
/// fires) or decayed (its compensation is discarded), and each of the two
/// operations consumes the unit, so a unit can never fire twice.
///
/// The spec functions `undo_post` and `decay_post` describe, per
/// implementor, what each of the two operations may return; the operations'
/// contracts are stated through them so that code generic over units can
/// reason about composites such as [`crate::stack::Stack`].
pub trait Atom: Sized {
    type Undo;

    type Decay;

    /// What holds of a result of `undo`.
    spec fn undo_post(self, r: Self::Undo) -> bool;

    /// What holds of a result of `decay`.
    spec fn decay_post(self, r: Self::Decay) -> bool;

    /// Fire the compensation, consuming the unit.
    fn undo(self) -> (r: Self::Undo)
        ensures
            self.undo_post(r),
    ;

    /// Discard the compensation, consuming the unit; nothing fires.
    fn decay(self) -> (r: Self::Decay)
        ensures
            self.decay_post(r),
    ;
}

/// Carries a value together with the compensating action that will consume it.
#[verifier::reject_recursive_types(R)]
pub struct Simple<T, R, Undo: FnOnce(T) -> R> {
    val: T,
    undo: Undo,
}

impl<T, R, Undo: FnOnce(T) -> R> Simple<T, R, Undo> {
    /// As long as the unit lives, its compensation accepts the value it was
    /// paired with, so the compensation can fire on every exit path.
    #[verifier::type_invariant]
    spec fn fireable(self) -> bool {
        call_requires(self.undo, (self.val,))
    }

    /// The wrapped value, as recorded at creation.
    pub closed spec fn value(self) -> T {
        self.val
    }

    /// The pending compensating action.
    pub closed spec fn compensation(self) -> Undo {
        self.undo
    }

    pub fn new(val: T, undo: Undo) -> (a: Self)
        requires
            call_requires(undo, (val,)),
        ensures
            a.value() == val,
            a.compensation() == undo,
    {
        Simple { val, undo }
    }

    /// Runs the compensating action on the wrapped value and returns its
    /// result. Consumes the unit, so the compensation can fire at most once.
    pub fn undo(self) -> (r: R)
        ensures
            call_ensures(self.compensation(), (self.value(),), r),
    {
        proof {
            use_type_invariant(&self);
        }
        let Simple { val, undo } = self;
        undo(val)
    }

    /// Returns the wrapped value untouched; the compensating action never
    /// runs. Consumes the unit, so nothing can fire later either.
    pub fn decay(self) -> (r: T)
        ensures
            r == self.value(),
    {
        let Simple { val, undo: _ } = self;
        val
    }
}

impl<T, R, Undo: FnOnce(T) -> R> Atom for Simple<T, R, Undo> {
    type Undo = R;

    type Decay = T;

    #[verifier::inline]
    open spec fn undo_post(self, r: R) -> bool {
        call_ensures(self.compensation(), (self.value(),), r)
    }

    #[verifier::inline]
    open spec fn decay_post(self, r: T) -> bool {
        r == self.value()
    }

    fn undo(self) -> (r: R) {
        Simple::undo(self)
    }

    fn decay(self) -> (r: T) {
        Simple::decay(self)
    }
}

/// A compensable unit that keeps a live, freely mutable copy of the value
/// beside the snapshot held for compensation.
///
/// The snapshot is taken once, at creation; mutating the live copy through
/// [`Owning::get_mut`] never touches the snapshot or the pending
/// compensation.
#[verifier::reject_recursive_types(T)]
pub struct Owning<T, Undo: FnOnce(T) -> T> {
    inner: Simple<T, T, Undo>,
    stored: T,
}

impl<T, Undo: FnOnce(T) -> T> Owning<T, Undo> {
    /// The snapshot taken at creation, reserved for the compensation.
    pub closed spec fn snapshot(self) -> T {
        self.inner.value()
    }

    /// The live copy, the one that `get_mut` hands out.
    pub closed spec fn live(self) -> T {
        self.stored
    }

    /// The pending compensating action.
    pub closed spec fn compensation(self) -> Undo {
        self.inner.compensation()
    }

    pub fn new(val: T, undo: Undo) -> (a: Self) where T: Clone
        requires
            forall|c: T| cloned::<T>(val, c) ==> call_requires(undo, (c,)),
        ensures
            a.live() == val,
            cloned(val, a.snapshot()),
            a.compensation() == undo,
    {
        let snap = val.clone();
        proof {
            assert(cloned::<T>(val, snap));
        }
        Owning { inner: Simple::new(snap, undo), stored: val }
    }

    /// Read access to the live copy.
    pub fn get(&self) -> (r: &T)
        ensures
            *r == self.live(),
    {
        &self.stored
    }

    /// Mutable access to the live copy; the snapshot and the compensation
    /// stay as they were.
    pub fn get_mut(&mut self) -> (r: &mut T)
        ensures
            *r == old(self).live(),
            final(self).live() == *final(r),
            final(self).snapshot() == old(self).snapshot(),
            final(self).compensation() == old(self).compensation(),
    {
        &mut self.stored
    }

    /// Hand out the live copy, discarding both the snapshot and the
    /// compensation; nothing fires.
    pub fn into_inner(self) -> (r: T)
        ensures
            r == self.live(),
    {
        let Owning { inner, stored } = self;
        let _ = inner.decay();
        stored
    }

    /// Runs the compensating action on the snapshot and returns its result;
    /// whatever the live copy held is discarded. Consumes the unit, so the
    /// compensation can fire at most once.
    pub fn undo(self) -> (r: T)
        ensures
            call_ensures(self.compensation(), (self.snapshot(),), r),
    {
        let Owning { inner, stored: _ } = self;
        inner.undo()
    }

    /// Returns the snapshot untouched; the compensating action never runs and
    /// the live copy is discarded. Use [`Owning::into_inner`] to keep the
    /// live, possibly mutated copy instead.
    pub fn decay(self) -> (r: T)
        ensures
            r == self.snapshot(),
    {
        let Owning { inner, stored: _ } = self;
        inner.decay()
    }
}

impl<T, Undo: FnOnce(T) -> T> Atom for Owning<T, Undo> {
    type Undo = T;

    type Decay = T;

    #[verifier::inline]
    open spec fn undo_post(self, r: T) -> bool {
        call_ensures(self.compensation(), (self.snapshot(),), r)
    }

    #[verifier::inline]
    open spec fn decay_post(self, r: T) -> bool {
        r == self.snapshot()
    }

    fn undo(self) -> (r: T) {
        Owning::undo(self)
    }

    fn decay(self) -> (r: T) {
        Owning::decay(self)
    }
}

/// A long-lived resource that a sequence of individually compensable
/// sub-operations is applied to.
///
/// Each sub-operation goes through [`Encased::peel_mut`], which takes the one
/// mutable borrow the handle ever gives out and releases it before returning:
/// starting a sub-operation while another is mid-mutation is rejected at
/// compile time by the borrow checker, so no two sub-operations can observe a
/// half-finished resource.
pub struct Encased<S> {
    res: S,
}

impl<S> View for Encased<S> {
    type V = S;

    closed spec fn view(&self) -> S {
        self.res
    }
}

impl<S> Encased<S> {
    pub fn new(s: S) -> (e: Self)
        ensures
            e@ == s,
    {
        Encased { res: s }
    }

    /// Read access to the resource.
    pub fn get(&self) -> (r: &S)
        ensures
            *r == self@,
    {
        &self.res
    }

    /// Direct mutable access to the resource, outside any sub-operation.
    pub fn get_mut(&mut self) -> (r: &mut S)
        ensures
            *r == old(self)@,
            final(self)@ == *final(r),
    {
        &mut self.res
    }

    /// Perform one sub-operation: run `act` on the resource and wrap its
    /// result together with the compensating action `undo` as a
    /// [`SideEffect`].
    ///
    /// The compensation does not chain: undoing a later sub-operation never
    /// undoes an earlier one. Callers who want joint unwinding compose the
    /// side effects explicitly.
    pub fn peel_mut<R, Ru, U: FnOnce(&mut S, R) -> Ru>(
        &mut self,
        act: impl FnOnce(&mut S) -> R,
        undo: U,
    ) -> (eff: SideEffect<R, Ru, S, U>)
        requires
            forall|m: &mut S| *m == old(self)@ ==> call_requires(act, (m,)),
        ensures
            exists|m: &mut S|
                *m == old(self)@ && *final(m) == final(self)@ && call_ensures(
                    act,
                    (m,),
                    eff.value(),
                ),
            eff.compensation() == undo,
    {
        let stored = act(&mut self.res);
        SideEffect::new(stored, undo)
    }
}

/// One sub-operation performed against an [`Encased`] resource: its own
/// result value plus the compensating action that, when fired, mutates the
/// resource to take just this sub-operation back.
#[verifier::reject_recursive_types(Ru)]
pub struct SideEffect<T, Ru, S, Undo: FnOnce(&mut S, T) -> Ru> {
    value: T,
    undo: Undo,
    resource: core::marker::PhantomData<S>,
}

impl<T, Ru, S, Undo: FnOnce(&mut S, T) -> Ru> SideEffect<T, Ru, S, Undo> {
    /// The sub-operation's own result value.
    pub closed spec fn value(self) -> T {
        self.value
    }

    /// The pending compensating action.
    pub closed spec fn compensation(self) -> Undo {
        self.undo
    }

    fn new(value: T, undo: Undo) -> (eff: Self)
        ensures
            eff.value() == value,
            eff.compensation() == undo,
    {
        SideEffect { value, undo, resource: core::marker::PhantomData }
    }

    /// Read access to the stored result value.
    pub fn get(&self) -> (r: &T)
        ensures
            *r == self.value(),
    {
        &self.value
    }

    /// Mutable access to the stored result value; the compensation will
    /// receive whatever the value holds when it fires.
    pub fn get_mut(&mut self) -> (r: &mut T)
        ensures
            *r == old(self).value(),
            final(self).value() == *final(r),
            final(self).compensation() == old(self).compensation(),
    {
        &mut self.value
    }

    /// Chain a further sub-operation on the same resource; equivalent to
    /// calling [`Encased::peel_mut`] on `parent` directly.
    pub fn peel_mut<Rv, Rw, U: FnOnce(&mut S, Rv) -> Rw>(
        &self,
        parent: &mut Encased<S>,
        act: impl FnOnce(&mut S) -> Rv,
        undo: U,
    ) -> (eff: SideEffect<Rv, Rw, S, U>)
        requires
            forall|m: &mut S| *m == old(parent)@ ==> call_requires(act, (m,)),
        ensures
            exists|m: &mut S|
                *m == old(parent)@ && *final(m) == final(parent)@ && call_ensures(
                    act,
                    (m,),
                    eff.value(),
                ),
            eff.compensation() == undo,
    {
        parent.peel_mut(act, undo)
    }

    /// Fire the compensation: run it on the resource and the stored value,
    /// returning its result. Consumes the side effect, so it can fire at most
    /// once.
    pub fn undo(self, parent: &mut Encased<S>) -> (r: Ru)
        requires
            forall|m: &mut S| *m == old(parent)@ ==> call_requires(
                self.compensation(),
                (m, self.value()),
            ),
        ensures
            exists|m: &mut S|
                *m == old(parent)@ && *final(m) == final(parent)@ && call_ensures(
                    self.compensation(),
                    (m, self.value()),
                    r,
                ),
    {
        let SideEffect { value, undo, resource: _ } = self;
        undo(parent.get_mut(), value)
    }

    /// Discard the compensation and hand out the stored value; the resource
    /// is never touched.
    pub fn decay(self) -> (r: T)
        ensures
            r == self.value(),
    {
        let SideEffect { value, undo: _, resource: _ } = self;
        value
    }
}

/// Law: a unit freshly built from `(v, f)` and then undone behaves as one
/// direct call of `f` on `v` — whatever `undo` returned is a possible result
/// of `f(v)`. Together with the fact that neither `new` nor `undo` touches
/// anything but the unit itself, undoing (or abandoning, which is undoing
/// with the result discarded) a fresh unit has exactly the effect of `f(v)`.
pub proof fn lemma_fresh_undo_is_one_call<T, R, Undo: FnOnce(T) -> R>(
    v: T,
    f: Undo,
    a: Simple<T, R, Undo>,
    r: R,
)
    requires
        a.value() == v,
        a.compensation() == f,
        a.undo_post(r),
    ensures
        call_ensures(f, (v,), r),
{
}

/// Law: a unit freshly built from `(v, f)` and then decayed hands `v` back
/// unchanged, and `f` never runs — `decay`'s contract never invokes the
/// compensation, and a unit reaches no state other than what it was built
/// from, so cancelling leaves everything as if the unit had never existed.
pub proof fn lemma_fresh_decay_returns_value<T, R, Undo: FnOnce(T) -> R>(
    v: T,
    f: Undo,
    a: Simple<T, R, Undo>,
    r: T,
)
    requires
        a.value() == v,
        a.compensation() == f,
        a.decay_post(r),
    ensures
        r == v,
{
}

/// Law: the round trip over a shared resource. Starting from `r0`, perform
/// sub-operation one (resource becomes `s1`, value `v1`), then sub-operation
/// two (resource `s2`, value `v2`); undo the second (resource `s3`), then the
/// first (resource `s4`). If each compensation is a true inverse of its
/// sub-operation, the resource is back to `r0` exactly.
///
/// "True inverse" says: whenever the sub-operation turns the resource from
/// one state into another, producing a value, running its compensation with
/// that value from the later state puts the resource back exactly where it
/// was.
///
/// The remaining hypotheses are precisely what [`Encased::peel_mut`] and
/// [`SideEffect::undo`] ensure for the four calls, so the law applies to any
/// such pipeline.
pub proof fn lemma_round_trip<
    S,
    R1,
    Ru1,
    R2,
    Ru2,
    Act1: FnOnce(&mut S) -> R1,
    Undo1: FnOnce(&mut S, R1) -> Ru1,
    Act2: FnOnce(&mut S) -> R2,
    Undo2: FnOnce(&mut S, R2) -> Ru2,
>(
    act1: Act1,
    undo1: Undo1,
    act2: Act2,
    undo2: Undo2,
    r0: S,
    s1: S,
    s2: S,
    s3: S,
    s4: S,
    v1: R1,
    v2: R2,
    w2: Ru2,
    w1: Ru1,
)
    requires
        forall|ma: &mut S, v: R1, mu: &mut S, w: Ru1|
            #![trigger call_ensures(act1, (ma,), v), call_ensures(undo1, (mu, v), w)]
            call_ensures(act1, (ma,), v) && *mu == *final(ma) && call_ensures(undo1, (mu, v), w)
                ==> *final(mu) == *ma,
        forall|ma: &mut S, v: R2, mu: &mut S, w: Ru2|
            #![trigger call_ensures(act2, (ma,), v), call_ensures(undo2, (mu, v), w)]
            call_ensures(act2, (ma,), v) && *mu == *final(ma) && call_ensures(undo2, (mu, v), w)
                ==> *final(mu) == *ma,
        exists|m: &mut S| *m == r0 && *final(m) == s1 && call_ensures(act1, (m,), v1),
        exists|m: &mut S| *m == s1 && *final(m) == s2 && call_ensures(act2, (m,), v2),
        exists|m: &mut S| *m == s2 && *final(m) == s3 && call_ensures(undo2, (m, v2), w2),
        exists|m: &mut S| *m == s3 && *final(m) == s4 && call_ensures(undo1, (m, v1), w1),
    ensures
        s4 == r0,
{
    let ma2 = choose|m: &mut S| *m == s1 && *final(m) == s2 && call_ensures(act2, (m,), v2);
    let mu2 = choose|m: &mut S| *m == s2 && *final(m) == s3 && call_ensures(undo2, (m, v2), w2);
    assert(*final(mu2) == *ma2);
    let ma1 = choose|m: &mut S| *m == r0 && *final(m) == s1 && call_ensures(act1, (m,), v1);
    let mu1 = choose|m: &mut S| *m == s3 && *final(m) == s4 && call_ensures(undo1, (m, v1), w1);
    assert(*final(mu1) == *ma1);
}

} // verus!
