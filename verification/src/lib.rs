//! In-place data merging between existing values.
//!
//! The trait pair [`PullFrom`] and [`PushInto`] lets types exchange data the
//! way [`From`] and [`Into`] let them convert, with one difference: no new
//! instance is created. A merge mutates a value that already exists,
//! absorbing selected data from a source value.
//!
//! A target type implements [`PullFrom`] once per source type it knows how
//! to absorb data from. [`PushInto`] is never implemented by hand: a blanket
//! implementation grants it to every source type whose target implements
//! [`PullFrom`], and defines pushing as exactly the target's pull. The two
//! directions therefore exist for precisely the same type pairs and never
//! diverge in behaviour.
//!
//! Each implementation pins its merge policy down with the spec function
//! [`PullFrom::pulled`], which the executable [`PullFrom::pull_from`] must
//! realize. The [`examples`] module holds illustrative implementations of
//! the common policies: a cross-shape merge, a full overwrite, and a
//! field-by-field partial update.

use vstd::prelude::*;

pub mod examples;

verus! {

/// Pull data from a given source into `self`, mutating `self` in place.
///
/// A type implements `PullFrom<S>` to declare that it knows how to absorb
/// data from a value of type `S`. Which data is absorbed is entirely up to
/// the implementation: [`Self::pulled`] states the policy, and
/// [`Self::pull_from`] is held to it.
pub trait PullFrom<S>: Sized {
    /// The value the target holds after pulling from `source`, given that it
    /// held `pre` before.
    spec fn pulled(pre: Self, source: S) -> Self;

    /// Absorb data from `source` into `self`. Reads only from `source`,
    /// writes only into `self`, and cannot fail.
    fn pull_from(&mut self, source: &S)
        ensures
            *final(self) == Self::pulled(*old(self), *source),
    ;
}

/// Push data from `self` into a given target, mutating the target in place.
///
/// This capability is derived, never implemented directly: the blanket
/// implementation below grants `PushInto<T>` to every type `S` with a
/// `PullFrom<S>` implementation on `T`, so pushing exists if and only if
/// the matching pull does.
pub trait PushInto<T>: Sized {
    /// The value the target holds after `source` is pushed into it, given
    /// that it held `pre` before.
    spec fn pushed(source: Self, pre: T) -> T;

    /// Push data from `self` into `target`. Reads only from `self`, writes
    /// only into `target`, and cannot fail.
    fn push_into(&self, target: &mut T)
        ensures
            *final(target) == Self::pushed(*self, *old(target)),
    ;
}

impl<T: PullFrom<S>, S> PushInto<T> for S {
    open spec fn pushed(source: S, pre: T) -> T {
        T::pulled(pre, source)
    }

    fn push_into(&self, target: &mut T)
        ensures
            *final(target) == T::pulled(*old(target), *self),
    {
        target.pull_from(self);
    }
}

/// Relay correctness: for every type pair with a `PullFrom` implementation,
/// pushing a source into a target leaves the target in exactly the state
/// that pulling from the same source would, from the same starting state.
pub proof fn lemma_push_into_matches_pull_from<S, T: PullFrom<S>>(source: S, target: T)
    ensures
        <S as PushInto<T>>::pushed(source, target) == T::pulled(target, source),
{
}

} // verus!
