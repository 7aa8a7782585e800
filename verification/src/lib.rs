//! Transactional compensating actions: an operation that mutates a value or
//! a shared resource is paired, at creation time, with an undo action that
//! can restore the prior state. The caller either fires the compensation
//! (`undo`), giving manual rollback, or explicitly discards it (`decay`),
//! committing the operation; both consume the unit, so a compensation can
//! never run twice.
//!
//! The pieces, smallest first: [`atom::Simple`] pairs one value with one
//! compensating action; [`atom::Owning`] additionally keeps a live, mutable
//! copy beside the snapshot reserved for the compensation; [`atom::Encased`]
//! wraps a long-lived resource to which a chain of individually compensable
//! sub-operations ([`atom::SideEffect`]) is applied; and
//! [`stack::Stack`] composes many units into one, unwinding them in reverse
//! of registration order.

use vstd::prelude::*;

pub mod atom;
pub mod stack;

pub use atom::Atom;

verus! {

/// The identity function, as a ready-made compensation for units whose undo
/// should hand the stored value back unchanged.
pub fn id<T>(v: T) -> (r: T)
    ensures
        r == v,
{
    v
}

/// Wrap `value` with the compensating action `undo`.
pub fn simple<T, R, Undo: FnOnce(T) -> R>(value: T, undo: Undo) -> (a: atom::Simple<T, R, Undo>)
    requires
        call_requires(undo, (value,)),
    ensures
        a.value() == value,
        a.compensation() == undo,
{
    atom::Simple::new(value, undo)
}

/// Wrap `value` with the compensating action `undo`, keeping a live copy that
/// the caller may mutate in place while the snapshot stays reserved for the
/// compensation.
pub fn own<T: Clone, Undo: FnOnce(T) -> T>(value: T, undo: Undo) -> (a: atom::Owning<T, Undo>)
    requires
        forall|c: T| cloned::<T>(value, c) ==> call_requires(undo, (c,)),
    ensures
        a.live() == value,
        cloned(value, a.snapshot()),
        a.compensation() == undo,
{
    atom::Owning::new(value, undo)
}

/// Wrap a long-lived resource so that a sequence of individually compensable
/// sub-operations can be applied to it.
pub fn encase<S>(s: S) -> (e: atom::Encased<S>)
    ensures
        e@ == s,
{
    atom::Encased::new(s)
}

} // verus!
