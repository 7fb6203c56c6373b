//! Scopes: what can be opened into a paused computation.
use vstd::prelude::*;

use crate::nofuture::RawFuture;
use crate::raw_scope::TimeCapsule;
use crate::{Family, Never};

verus! {

/// A scope that can be frozen in time.
///
/// Running a scope hands it a time capsule and gives back the paused
/// computation, not yet resumed.
pub trait Scope: Sized {
    /// The helper type that names the shape of the exposed data.
    type Family: Family<'static>;

    /// The output of this scope.
    type Output;

    /// The paused computation that runs the scope.
    type Future: RawFuture<Self::Family, Output = Self::Output>;

    /// Whether running this scope on `time_capsule` may give `fut`. Unless
    /// an implementation says more, any computation may come out.
    open spec fn runs(self, time_capsule: TimeCapsule<Self::Family>, fut: Self::Future) -> bool {
        true
    }

    /// Runs the scope by injecting a [`TimeCapsule`].
    fn run(self, time_capsule: TimeCapsule<Self::Family>) -> (fut: Self::Future)
        ensures
            self.runs(time_capsule, fut),
    ;
}

/// A top-level [`Scope`]: one whose computation never completes.
pub trait TopScope: Scope<Output = Never> {

}

impl<S> TopScope for S where S: Scope<Output = Never> {

}

/// A scope made of a producer: a function from the time capsule to the
/// paused computation.
#[verifier::reject_recursive_types(T)]
#[verifier::reject_recursive_types(F)]
pub struct Wrapper<P, T, F> where P: FnOnce(TimeCapsule<T>) -> F {
    producer: P,
    marker: core::marker::PhantomData<(T, F)>,
}

impl<P, T, F> Wrapper<P, T, F> where P: FnOnce(TimeCapsule<T>) -> F {
    /// The producer that the scope is made of.
    pub closed spec fn producer(self) -> P {
        self.producer
    }

    #[verifier::type_invariant]
    spec fn callable(self) -> bool {
        forall|time_capsule: TimeCapsule<T>| call_requires(self.producer, (time_capsule,))
    }
}

impl<P, T, F> Scope for Wrapper<P, T, F> where
    P: FnOnce(TimeCapsule<T>) -> F,
    T: Family<'static>,
    F: RawFuture<T>,
 {
    type Family = T;

    type Output = <F as RawFuture<T>>::Output;

    type Future = F;

    open spec fn runs(self, time_capsule: TimeCapsule<T>, fut: F) -> bool {
        call_ensures(self.producer(), (time_capsule,), fut)
    }

    fn run(self, time_capsule: TimeCapsule<T>) -> (fut: F) {
        proof {
            use_type_invariant(&self);
        }
        (self.producer)(time_capsule)
    }
}

/// Constructs a new scope from a producer that accepts every time capsule.
pub fn new_scope<P, T, F>(producer: P) -> (scope: Wrapper<P, T, F>) where
    P: FnOnce(TimeCapsule<T>) -> F,
    T: Family<'static>,
    F: RawFuture<T>,

    requires
        forall|time_capsule: TimeCapsule<T>| call_requires(producer, (time_capsule,)),
    ensures
        scope.producer() == producer,
{
    Wrapper { producer, marker: core::marker::PhantomData }
}

} // verus!
