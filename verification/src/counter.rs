//! A worked scope: a counter that is exposed at every entry and goes up by
//! one between two entries.
use vstd::prelude::*;

use crate::nofuture::{Poll, RawFuture};
use crate::raw_scope::{FrozenFuture, Paused, State, StateView, TimeCapsule};
use crate::scope::Scope;
use crate::{Never, SingleFamily};

verus! {

/// The value that follows `x` in the count: one more, and 0 after the
/// greatest.
pub open spec fn bumped(x: u32) -> u32 {
    if x == u32::MAX {
        0
    } else {
        (x + 1) as u32
    }
}

/// The scope of a counter.
///
/// Its computation keeps a `u32` that starts at 0, freezes the scope on it,
/// and adds one to it whenever it is resumed after an entry, before it
/// freezes the scope again.
pub struct Counter {}

/// The paused computation of a [`Counter`].
pub struct Counting {
    time_capsule: TimeCapsule<SingleFamily<u32>>,
    at: Option<usize>,
}

impl Counting {
    /// The address at which the count is kept, once the computation was
    /// resumed for the first time.
    pub closed spec fn address(self) -> Option<usize> {
        self.at
    }

    /// The time capsule through which the computation freezes its scope.
    pub closed spec fn time_capsule(self) -> TimeCapsule<SingleFamily<u32>> {
        self.time_capsule
    }

    /// The computation once it keeps the count at `at`.
    pub closed spec fn counting_at(self, at: usize) -> Self {
        Counting { time_capsule: self.time_capsule, at: Some(at) }
    }
}

impl RawFuture<SingleFamily<u32>> for Counting {
    type Output = Never;

    open spec fn resumed(self, state: StateView<u32>) -> (Self, StateView<u32>, Poll<Never>) {
        match self.address() {
            None => (
                self.counting_at(state.frame.len() as usize),
                StateView { slot: Some(state.frame.len() as usize), frame: state.frame.push(0) },
                Poll::Pending,
            ),
            Some(at) => (
                self,
                StateView {
                    slot: Some(at),
                    frame: if at < state.frame.len() {
                        state.frame.update(at as int, bumped(state.frame[at as int]))
                    } else {
                        state.frame
                    },
                },
                Poll::Pending,
            ),
        }
    }

    fn poll(&mut self, state: &mut State<SingleFamily<u32>>) -> (p: Poll<Never>) {
        let at = match self.at {
            None => state.keep(0),
            Some(at) => {
                match state.get_mut(at) {
                    Some(x) => {
                        *x = if *x == u32::MAX {
                            0
                        } else {
                            *x + 1
                        };
                    },
                    None => {},
                }
                at
            },
        };
        self.at = Some(at);
        // The suspension has nothing left to say once its address was
        // deposited, so the computation does not keep it.
        let mut frozen = self.time_capsule.freeze(at);
        proof {
            FrozenFuture::<SingleFamily<u32>>::lemma_fresh(at);
        }
        let _ = frozen.poll(state);
        proof {
            assert(state@.frame =~= old(self).resumed(old(state)@).1.frame);
        }
        Poll::Pending
    }
}

impl Scope for Counter {
    type Family = SingleFamily<u32>;

    type Output = Never;

    type Future = Counting;

    open spec fn runs(self, time_capsule: TimeCapsule<SingleFamily<u32>>, fut: Counting) -> bool {
        &&& fut.time_capsule() == time_capsule
        &&& fut.address() is None
    }

    fn run(self, time_capsule: TimeCapsule<SingleFamily<u32>>) -> (fut: Counting) {
        Counting { time_capsule, at: None }
    }
}

/// Whether `opened` is a counter's scope that was opened and never entered.
pub open spec fn fresh(opened: Paused<SingleFamily<u32>, Counting>) -> bool {
    &&& opened.future.address() is None
    &&& opened.state.slot is None
    &&& opened.state.frame.len() == 0
}

/// Whether `paused` is a counter's scope between two entries: the slot is
/// empty and the count is kept in the frame.
pub open spec fn counting(paused: Paused<SingleFamily<u32>, Counting>) -> bool {
    &&& paused.state.slot is None
    &&& paused.future.address() matches Some(at) && at < paused.state.frame.len()
}

/// The count that a counter's scope keeps between two entries.
pub open spec fn count(paused: Paused<SingleFamily<u32>, Counting>) -> u32 {
    paused.state.frame[paused.future.address().unwrap() as int]
}

/// The scope after `n` entries whose callbacks left what they were lent as
/// it was.
pub open spec fn watched(opened: Paused<SingleFamily<u32>, Counting>, n: nat) -> Paused<
    SingleFamily<u32>,
    Counting,
>
    decreases n,
{
    if n == 0 {
        opened
    } else {
        let before = watched(opened, (n - 1) as nat);
        before.entered(before.exposed())
    }
}

/// The first entry into a counter's scope exposes 0, and leaves the scope
/// counting from what the callback left.
pub proof fn lemma_first_entry(opened: Paused<SingleFamily<u32>, Counting>, left: u32)
    requires
        fresh(opened),
    ensures
        opened.deposits(),
        opened.exposed() == 0,
        counting(opened.entered(left)),
        count(opened.entered(left)) == left,
{
}

/// What the callback of one entry left is what the computation goes on
/// from: the next entry exposes one more, and leaves the scope counting
/// from what its own callback left.
pub proof fn lemma_next_entry(paused: Paused<SingleFamily<u32>, Counting>, left: u32)
    requires
        counting(paused),
    ensures
        paused.deposits(),
        paused.exposed() == bumped(count(paused)),
        counting(paused.entered(left)),
        count(paused.entered(left)) == left,
{
}

/// After `n` entries that only looked at the count, the next entry exposes
/// `n`, counted from 0 and starting over after the greatest `u32`.
pub proof fn lemma_counter_counts(opened: Paused<SingleFamily<u32>, Counting>, n: nat)
    requires
        fresh(opened),
    ensures
        watched(opened, n).deposits(),
        watched(opened, n).exposed() == n % 0x1_0000_0000,
        n > 0 ==> counting(watched(opened, n)),
    decreases n,
{
    if n == 0 {
        lemma_first_entry(opened, 0);
    } else {
        let before = watched(opened, (n - 1) as nat);
        lemma_counter_counts(opened, (n - 1) as nat);
        if n == 1 {
            lemma_first_entry(opened, before.exposed());
        } else {
            lemma_next_entry(before, before.exposed());
        }
        lemma_next_entry(watched(opened, n), 0);
    }
}

} // verus!
