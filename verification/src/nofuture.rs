//! Paused computations, and what one resumption of them reports.
use vstd::prelude::*;

use crate::raw_scope::{State, StateView};
use crate::Family;

verus! {

/// What one resumption of a paused computation reports.
pub enum Poll<T> {
    /// The computation ran to its end and produced its output.
    Ready(T),
    /// The computation suspended again.
    Pending,
}

/// A paused computation: a state machine that a scope resumes one
/// suspension point at a time.
pub trait RawFuture<T: Family<'static>>: Sized {
    /// What the computation produces when it runs to its end.
    type Output;

    /// The computation, the shared state and the report after one
    /// resumption that starts from `self` with `state`.
    open spec fn resumed(self, state: StateView<<T as Family<'static>>::Family>) -> (
        Self,
        StateView<<T as Family<'static>>::Family>,
        Poll<Self::Output>,
    ) {
        arbitrary()
    }

    /// Resumes the computation until its next suspension point.
    fn poll(&mut self, state: &mut State<T>) -> (p: Poll<Self::Output>)
        requires
            old(state)@.slot is None,
        ensures
            (*final(self), final(state)@, p) == old(self).resumed(old(state)@),
    ;
}

/// The place of a scope's paused computation: vacant until the scope is
/// opened, and vacant again once the computation was dropped.
pub struct NoFuture<F> {
    object: Option<F>,
}

impl<F> NoFuture<F> {
    /// The computation that is held, if any.
    pub closed spec fn object(self) -> Option<F> {
        self.object
    }

    /// A place that holds no computation.
    pub fn vacant() -> (this: NoFuture<F>)
        ensures
            this.object() is None,
    {
        NoFuture { object: None }
    }

    /// Builds the place that holds `future`.
    pub fn new(future: F) -> (this: NoFuture<F>)
        ensures
            this.object() == Some(future),
    {
        NoFuture { object: Some(future) }
    }

    /// Whether no computation is held.
    pub fn is_vacant(&self) -> (b: bool)
        ensures
            b == (self.object() is None),
    {
        self.object.is_none()
    }

    /// Drops the computation, if one is held, and leaves the place vacant.
    pub fn drop_future(&mut self)
        ensures
            final(self).object() is None,
        opens_invariants none
        no_unwind
    {
        self.object = None;
    }

    /// Resumes the computation that is held until its next suspension
    /// point.
    pub fn poll<T>(&mut self, state: &mut State<T>) -> (p: Poll<F::Output>) where
        T: Family<'static>,
        F: RawFuture<T>,

        requires
            old(self).object() is Some,
            old(state)@.slot is None,
        ensures
            final(self).object() is Some,
            (final(self).object().unwrap(), final(state)@, p) == old(self).object().unwrap().resumed(
                old(state)@,
            ),
    {
        match &mut self.object {
            Some(future) => future.poll(state),
            None => vstd::pervasive::unreached(),
        }
    }
}

} // verus!
