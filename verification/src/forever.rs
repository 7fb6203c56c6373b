//! A worked scope: one value that is kept once and exposed at every entry,
//! as the entry before left it.
use vstd::prelude::*;

use crate::nofuture::{Poll, RawFuture};
use crate::raw_scope::{FrozenForever, Paused, State, StateView, TimeCapsule};
use crate::scope::Scope;
use crate::{Family, Never};

verus! {

/// The scope of one value.
///
/// Its computation keeps the value when it is resumed for the first time,
/// freezes the scope on it forever, and never touches it again.
pub struct Forever<T> where T: Family<'static> {
    value: <T as Family<'static>>::Family,
}

impl<T> Forever<T> where T: Family<'static> {
    /// The value that the scope is going to expose.
    pub closed spec fn value(self) -> <T as Family<'static>>::Family {
        self.value
    }

    /// The scope that exposes `value`.
    pub fn new(value: <T as Family<'static>>::Family) -> (scope: Self)
        ensures
            scope.value() == value,
    {
        Forever { value }
    }
}

/// The paused computation of a [`Forever`].
pub struct KeptForever<T> where T: Family<'static> {
    time_capsule: TimeCapsule<T>,
    value: Option<<T as Family<'static>>::Family>,
    forever: Option<FrozenForever<T>>,
}

impl<T> KeptForever<T> where T: Family<'static> {
    /// The time capsule through which the computation freezes its scope.
    pub closed spec fn time_capsule(self) -> TimeCapsule<T> {
        self.time_capsule
    }

    /// The value that the computation has still to keep, before it was
    /// resumed for the first time.
    pub closed spec fn value(self) -> Option<<T as Family<'static>>::Family> {
        self.value
    }

    /// What the computation rests on once it keeps its value.
    pub closed spec fn forever(self) -> Option<FrozenForever<T>> {
        self.forever
    }

    /// The computation at rest on `forever`, with nothing left to keep.
    pub closed spec fn resting_on(self, forever: Option<FrozenForever<T>>) -> Self {
        KeptForever { time_capsule: self.time_capsule, value: None, forever }
    }

    /// What a computation at rest holds.
    pub proof fn lemma_resting_on(self, forever: Option<FrozenForever<T>>)
        ensures
            self.resting_on(forever).time_capsule() == self.time_capsule(),
            self.resting_on(forever).value() is None,
            self.resting_on(forever).forever() == forever,
    {
    }
}

impl<T> RawFuture<T> for KeptForever<T> where T: Family<'static> {
    type Output = Never;

    open spec fn resumed(self, state: StateView<<T as Family<'static>>::Family>) -> (
        Self,
        StateView<<T as Family<'static>>::Family>,
        Poll<Never>,
    ) {
        let kept = match self.value() {
            Some(value) => (
                Some(FrozenForever::fresh(self.time_capsule(), state.frame.len() as usize)),
                StateView { slot: state.slot, frame: state.frame.push(value) },
            ),
            None => (self.forever(), state),
        };
        match kept.0 {
            Some(forever) => (
                self.resting_on(Some(forever.resumed(kept.1).0)),
                forever.resumed(kept.1).1,
                Poll::Pending,
            ),
            None => (self.resting_on(None), kept.1, Poll::Pending),
        }
    }

    fn poll(&mut self, state: &mut State<T>) -> (p: Poll<Never>) {
        match self.value.take() {
            Some(value) => {
                let at = state.keep(value);
                self.forever = Some(self.time_capsule.freeze_forever(at));
            },
            None => {},
        }
        match &mut self.forever {
            Some(forever) => forever.poll(state),
            None => Poll::Pending,
        }
    }
}

impl<T> Scope for Forever<T> where T: Family<'static> {
    type Family = T;

    type Output = Never;

    type Future = KeptForever<T>;

    open spec fn runs(self, time_capsule: TimeCapsule<T>, fut: KeptForever<T>) -> bool {
        &&& fut.time_capsule() == time_capsule
        &&& fut.value() == Some(self.value())
        &&& fut.forever() is None
    }

    fn run(self, time_capsule: TimeCapsule<T>) -> (fut: KeptForever<T>) {
        KeptForever { time_capsule, value: Some(self.value), forever: None }
    }
}

/// Whether `opened` is the scope of `value`, opened and never entered.
pub open spec fn fresh<T: Family<'static>>(
    opened: Paused<T, KeptForever<T>>,
    value: <T as Family<'static>>::Family,
) -> bool {
    &&& opened.future.value() == Some(value)
    &&& opened.future.forever() is None
    &&& opened.state.slot is None
    &&& opened.state.frame.len() == 0
}

/// Whether `paused` is the scope of a value between two entries: the slot
/// is empty, and the computation rests on a value that it keeps at `at`.
pub open spec fn resting<T: Family<'static>>(paused: Paused<T, KeptForever<T>>, at: usize) -> bool {
    &&& paused.state.slot is None
    &&& at < paused.state.frame.len()
    &&& paused.future.value() is None
    &&& paused.future.forever() == Some(
        FrozenForever::fresh(paused.future.time_capsule(), at).rested(),
    )
}

/// The first entry into the scope of a value exposes that value, and leaves
/// the scope at rest on what the callback left.
pub proof fn lemma_first_entry<T: Family<'static>>(
    opened: Paused<T, KeptForever<T>>,
    value: <T as Family<'static>>::Family,
    left: <T as Family<'static>>::Family,
)
    requires
        fresh(opened, value),
    ensures
        opened.deposits(),
        opened.exposed() == value,
        resting(opened.entered(left), 0),
        opened.entered(left).state.frame[0] == left,
{
    let at = 0usize;
    let forever = FrozenForever::fresh(opened.future.time_capsule(), at);
    FrozenForever::lemma_rested(opened.future.time_capsule(), at);
    opened.future.lemma_resting_on(Some(forever.rested()));
}

/// What the callback of one entry left is what the next entry exposes, and
/// so on forever: the computation never touches the value.
pub proof fn lemma_round_trip<T: Family<'static>>(
    paused: Paused<T, KeptForever<T>>,
    at: usize,
    left: <T as Family<'static>>::Family,
)
    requires
        resting(paused, at),
    ensures
        paused.deposits(),
        paused.address() == at,
        paused.exposed() == paused.state.frame[at as int],
        resting(paused.entered(left), at),
        paused.entered(left).state.frame[at as int] == left,
        paused.entered(left).exposed() == left,
{
    let forever = FrozenForever::fresh(paused.future.time_capsule(), at);
    FrozenForever::lemma_rested(paused.future.time_capsule(), at);
    paused.future.lemma_resting_on(Some(forever.rested()));
    let after = paused.entered(left);
    FrozenForever::lemma_rested(after.future.time_capsule(), at);
    after.future.lemma_resting_on(Some(forever.rested()));
}

} // verus!
