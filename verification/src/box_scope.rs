//! A scope whose state lives on the heap.
use vstd::prelude::*;

use crate::nofuture::RawFuture;
use crate::raw_scope::{accepts, RawScope, ScopeError, TimeCapsule};
use crate::scope::TopScope;
use crate::{Family, Never};

verus! {

/// An opened scope tied to a `Box`.
///
/// The state is allocated once, when the scope is made, and the handle can
/// be moved freely afterwards. Dropping the handle drops the paused
/// computation first and frees the allocation after it.
pub struct BoxScope<T, F>(Box<RawScope<T, F>>) where T: Family<'static>;

impl<T, F> View for BoxScope<T, F> where T: Family<'static> {
    type V = RawScope<T, F>;

    closed spec fn view(&self) -> RawScope<T, F> {
        *self.0
    }
}

impl<T, F> Drop for BoxScope<T, F> where T: Family<'static> {
    /// Drops the paused computation first, without resuming it, while the
    /// state is still there; the allocation is freed after that.
    fn drop(&mut self)
        ensures
            final(self)@.future() is None,
            final(self)@.state() == old(self)@.state(),
            final(self)@.poisoned() == old(self)@.poisoned(),
            final(self)@.was_opened() == old(self)@.was_opened(),
        opens_invariants none
        no_unwind
    {
        self.0.close();
    }
}

impl<T, F> BoxScope<T, F> where T: Family<'static>, F: RawFuture<T, Output = Never> {
    /// Ties the passed scope to the heap and opens it.
    pub fn new<S: TopScope<Family = T, Future = F>>(scope: S) -> (this: BoxScope<T, F>)
        ensures
            this@.well_formed(),
            this@.resumable(),
            this@.was_opened(),
            scope.runs(TimeCapsule::injected(), this@.future().unwrap()),
            this@.state().frame == Seq::<<T as Family<'static>>::Family>::empty(),
    {
        let mut raw_scope = Box::new(RawScope::<T, F>::new_uninit());
        raw_scope.open(scope);
        BoxScope(raw_scope)
    }

    /// Enters the scope, making it possible to access the data frozen
    /// inside of the scope.
    pub fn enter<Output, G>(&mut self, f: G) -> (out: Output) where
        G: FnOnce(&mut <T as Family<'static>>::Family) -> Output,

        requires
            old(self)@.well_formed(),
            old(self)@.resumable(),
            old(self)@.paused().deposits(),
            accepts(f, old(self)@.paused().exposed()),
        ensures
            final(self)@.well_formed(),
            final(self)@.resumable(),
            final(self)@.was_opened() == old(self)@.was_opened(),
            exists|r: &mut <T as Family<'static>>::Family|
                *r == old(self)@.paused().exposed() && #[trigger] call_ensures(f, (r,), out)
                    && final(self)@.paused() == old(self)@.paused().entered(*final(r)),
    {
        self.0.enter(f)
    }

    /// Enters the scope if it can be entered, and says why not otherwise.
    ///
    /// A scope that is poisoned is left as it is. Otherwise the computation
    /// is resumed once, also when it then deposits nothing that can be
    /// lent.
    pub fn try_enter<Output, G>(&mut self, f: G) -> (res: Result<Output, ScopeError>) where
        G: FnOnce(&mut <T as Family<'static>>::Family) -> Output,

        requires
            old(self)@.well_formed(),
            old(self)@.refusal() is None ==> accepts(f, old(self)@.paused().exposed()),
        ensures
            final(self)@.well_formed(),
            final(self)@.was_opened() == old(self)@.was_opened(),
            match old(self)@.refusal() {
                Some(e) => res == Err::<Output, ScopeError>(e),
                None => res is Ok,
            },
            !old(self)@.resumable() ==> final(self)@ == old(self)@,
            old(self)@.resumable() ==> final(self)@.resumable(),
            old(self)@.resumable() && res is Err ==> final(self)@.paused() == old(
                self,
            )@.paused().stepped(),
            res matches Ok(out) ==> exists|r: &mut <T as Family<'static>>::Family|
                *r == old(self)@.paused().exposed() && #[trigger] call_ensures(f, (r,), out)
                    && final(self)@.paused() == old(self)@.paused().entered(*final(r)),
    {
        self.0.try_enter(f)
    }
}

} // verus!
