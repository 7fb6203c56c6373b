//! Scopes that can be frozen in time.
//!
//! A scope pairs a paused computation with a single exchange slot. The
//! computation keeps the values it wants to expose in the frame of the
//! [`State`] that it shares with the outside, deposits the address of one of
//! them through its [`TimeCapsule`] and suspends; the scope's owner then
//! enters the scope and is lent that value for the length of one callback.
//! The computation and the callback take turns: neither runs while the other
//! does, and the slot is empty whenever neither of them runs.
//!
//! A computation is an explicit state machine, a [`RawFuture`], whose every
//! resumption is a function of the machine and of the shared state. What an
//! entry does is stated over that function, on [`Paused`].
use vstd::prelude::*;

pub mod box_scope;
pub mod counter;
pub mod forever;
pub mod nofuture;
pub mod raw_scope;
pub mod scope;
pub mod stack_scope;

pub use box_scope::BoxScope;
pub use counter::{Counter, Counting};
pub use forever::{Forever, KeptForever};
pub use nofuture::{NoFuture, Poll, RawFuture};
pub use raw_scope::{
    FrozenForever, FrozenFuture, Paused, RawScope, ScopeError, State, StateView, TimeCapsule,
};
pub use scope::{new_scope, Scope, TopScope, Wrapper};
pub use stack_scope::{ClosedStackScope, StackScope};

verus! {

/// A type for computations that never finish.
///
/// No value of this type can be built, so a function that returns it never
/// returns, and a computation whose output it is never completes.
pub struct Never {
    void: core::convert::Infallible,
}

impl Never {
    #[verifier::type_invariant]
    spec fn uninhabited(self) -> bool {
        false
    }

    /// Turns a value that cannot exist into a value of any type.
    pub fn absurd<A>(self) -> A {
        proof {
            use_type_invariant(&self);
        }
        vstd::pervasive::unreached()
    }
}

/// Describes a family of types containing a lifetime.
///
/// Implemented on a helper type to name the shape of the data that a scope
/// exposes, whatever the length of the borrow under which it is lent.
pub trait Family<'a> {
    /// An instance with lifetime `'a` of the exposed data.
    type Family: 'a;
}

/// The one obvious family of a type that holds no lifetime.
pub struct SingleFamily<T: 'static>(core::marker::PhantomData<T>);

impl<'a, T: 'static> Family<'a> for SingleFamily<T> {
    type Family = T;
}

} // verus!
