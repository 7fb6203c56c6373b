//! A scope whose state lives where its owner put it.
use vstd::prelude::*;

use crate::nofuture::RawFuture;
use crate::raw_scope::{accepts, RawScope, ScopeError, TimeCapsule};
use crate::scope::TopScope;
use crate::{Family, Never};

verus! {

/// An unopened scope that is tied to a syntactic scope: it borrows a state
/// that its owner keeps in a place of their choice.
pub struct ClosedStackScope<'a, T, F>(&'a mut RawScope<T, F>) where T: Family<'static>;

/// An opened scope that is tied to a syntactic scope.
pub struct StackScope<'a, T, F>(&'a mut RawScope<T, F>) where T: Family<'static>;

impl<'a, T, F> ClosedStackScope<'a, T, F> where T: Family<'static> {
    /// The state that the handle borrows.
    pub closed spec fn state(self) -> RawScope<T, F> {
        *self.0
    }
}

impl<'a, T, F> StackScope<'a, T, F> where T: Family<'static> {
    /// The state that the handle borrows.
    pub closed spec fn state(self) -> RawScope<T, F> {
        *self.0
    }
}

impl<'a, T, F> ClosedStackScope<'a, T, F> where
    T: Family<'static>,
    F: RawFuture<T, Output = Never>,
 {
    /// Creates a new unopened scope from borrowing a state that was never
    /// opened.
    pub fn new_unchecked(scope: &'a mut RawScope<T, F>) -> (this: Self)
        requires
            old(scope).closed(),
        ensures
            this.state() == *old(scope),
    {
        ClosedStackScope(scope)
    }

    /// Opens this scope, making it possible to enter it.
    pub fn open<S: TopScope<Family = T, Future = F>>(self, scope: S) -> (opened: StackScope<
        'a,
        T,
        F,
    >)
        requires
            self.state().closed(),
        ensures
            opened.state().was_opened(),
            opened.state().resumable(),
            opened.state().well_formed(),
            opened.state().state() == self.state().state(),
            scope.runs(TimeCapsule::injected(), opened.state().future().unwrap()),
    {
        self.0.open(scope);
        StackScope(self.0)
    }
}

impl<'a, T, F> Drop for StackScope<'a, T, F> where T: Family<'static> {
    /// Drops the paused computation where it is, without resuming it. The
    /// state stays with its owner, who cannot open it again.
    fn drop(&mut self)
        ensures
            final(self).state().future() is None,
            final(self).state().state() == old(self).state().state(),
            final(self).state().poisoned() == old(self).state().poisoned(),
            final(self).state().was_opened() == old(self).state().was_opened(),
        opens_invariants none
        no_unwind
    {
        self.0.close();
    }
}

impl<'a, T, F> StackScope<'a, T, F> where T: Family<'static>, F: RawFuture<T, Output = Never> {
    /// Creates a new unopened scope from borrowing a state that was never
    /// opened.
    pub fn new_unchecked(scope: &'a mut RawScope<T, F>) -> (this: ClosedStackScope<'a, T, F>)
        requires
            old(scope).closed(),
        ensures
            this.state() == *old(scope),
    {
        ClosedStackScope::new_unchecked(scope)
    }

    /// Enters the scope, making it possible to access the data frozen
    /// inside of the scope.
    pub fn enter<Output, G>(&mut self, f: G) -> (out: Output) where
        G: FnOnce(&mut <T as Family<'static>>::Family) -> Output,

        requires
            old(self).state().well_formed(),
            old(self).state().resumable(),
            old(self).state().paused().deposits(),
            accepts(f, old(self).state().paused().exposed()),
        ensures
            final(self).state().well_formed(),
            final(self).state().resumable(),
            final(self).state().was_opened() == old(self).state().was_opened(),
            exists|r: &mut <T as Family<'static>>::Family|
                *r == old(self).state().paused().exposed() && #[trigger] call_ensures(f, (r,), out)
                    && final(self).state().paused() == old(self).state().paused().entered(
                    *final(r),
                ),
    {
        self.0.enter(f)
    }

    /// Enters the scope if it can be entered, and says why not otherwise.
    ///
    /// A scope that is poisoned is left as it is. Otherwise the computation
    /// is resumed once, also when it then deposits nothing that can be
    /// lent.
    pub fn try_enter<Output, G>(&mut self, f: G) -> (res: Result<Output, ScopeError>) where
        G: FnOnce(&mut <T as Family<'static>>::Family) -> Output,

        requires
            old(self).state().well_formed(),
            old(self).state().refusal() is None ==> accepts(
                f,
                old(self).state().paused().exposed(),
            ),
        ensures
            final(self).state().well_formed(),
            final(self).state().was_opened() == old(self).state().was_opened(),
            match old(self).state().refusal() {
                Some(e) => res == Err::<Output, ScopeError>(e),
                None => res is Ok,
            },
            !old(self).state().resumable() ==> final(self).state() == old(self).state(),
            old(self).state().resumable() ==> final(self).state().resumable(),
            old(self).state().resumable() && res is Err ==> final(self).state().paused() == old(
                self,
            ).state().paused().stepped(),
            res matches Ok(out) ==> exists|r: &mut <T as Family<'static>>::Family|
                *r == old(self).state().paused().exposed() && #[trigger] call_ensures(f, (r,), out)
                    && final(self).state().paused() == old(self).state().paused().entered(
                    *final(r),
                ),
    {
        self.0.try_enter(f)
    }
}

} // verus!
