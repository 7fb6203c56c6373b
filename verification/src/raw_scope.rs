//! The scope engine: the exchange slot, the capsule and the scope state.
use vstd::prelude::*;

use crate::nofuture::{NoFuture, Poll, RawFuture};
use crate::scope::TopScope;
use crate::{Family, Never};

verus! {

/// What a [`State`] holds, as plain values.
pub ghost struct StateView<V> {
    /// The exchange slot: the address that was deposited and not yet taken.
    pub slot: Option<usize>,
    /// The values that the computation keeps for exposure, by address.
    pub frame: Seq<V>,
}

/// What a paused computation and the outside of its scope share: the
/// exchange slot, and the frame of values that the computation keeps so that
/// it can expose them.
///
/// A computation is handed the state whenever it is resumed. It owns the
/// frame: it keeps values there and changes them as it likes. The slot it
/// fills only by driving a [`FrozenFuture`].
pub struct State<T> where T: Family<'static> {
    slot: Option<usize>,
    frame: Vec<<T as Family<'static>>::Family>,
}

impl<T> View for State<T> where T: Family<'static> {
    type V = StateView<<T as Family<'static>>::Family>;

    closed spec fn view(&self) -> Self::V {
        StateView { slot: self.slot, frame: self.frame@ }
    }
}

impl<T> State<T> where T: Family<'static> {
    /// Keeps `value` in the frame and returns its address.
    pub fn keep(&mut self, value: <T as Family<'static>>::Family) -> (at: usize)
        ensures
            at == old(self)@.frame.len(),
            final(self)@ == (StateView {
                slot: old(self)@.slot,
                frame: old(self)@.frame.push(value),
            }),
    {
        let at = self.frame.len();
        self.frame.push(value);
        at
    }

    /// The number of values that the frame keeps.
    pub fn len(&self) -> (n: usize)
        ensures
            n == self@.frame.len(),
    {
        self.frame.len()
    }

    /// The value kept at `at`, if there is one.
    pub fn get(&self, at: usize) -> (r: Option<&<T as Family<'static>>::Family>)
        ensures
            at < self@.frame.len() ==> r == Some(&self@.frame[at as int]),
            at >= self@.frame.len() ==> r is None,
    {
        if at < self.frame.len() {
            Some(&self.frame[at])
        } else {
            None
        }
    }

    /// The value kept at `at`, if there is one, for the computation to
    /// change it.
    pub fn get_mut(&mut self, at: usize) -> (r: Option<&mut <T as Family<'static>>::Family>)
        ensures
            at < old(self)@.frame.len() ==> r is Some && *r.unwrap() == old(self)@.frame[at as int]
                && final(self)@ == (StateView {
                slot: old(self)@.slot,
                frame: old(self)@.frame.update(at as int, *final(r.unwrap())),
            }),
            at >= old(self)@.frame.len() ==> r is None && final(self)@ == old(self)@,
    {
        if at < self.frame.len() {
            Some(&mut self.frame[at])
        } else {
            None
        }
    }

    /// Whether the slot holds an address that nobody took yet.
    pub fn is_frozen(&self) -> (b: bool)
        ensures
            b == (self@.slot is Some),
    {
        self.slot.is_some()
    }
}

/// The suspension that results from using a time capsule to freeze a scope.
///
/// It serves one exchange: it deposits its address, waits until the address
/// was taken, and is finished.
pub struct FrozenFuture<T> {
    mut_ref: Option<usize>,
    finished: bool,
    marker: core::marker::PhantomData<T>,
}

impl<T> FrozenFuture<T> {
    /// The address that this suspension has still to deposit, if any.
    pub closed spec fn undeposited(self) -> Option<usize> {
        self.mut_ref
    }

    /// Whether the exchange is over: the address was deposited and taken,
    /// and the computation was told so.
    pub closed spec fn finished(self) -> bool {
        self.finished
    }

    /// The suspension that has still to deposit `at`.
    pub closed spec fn fresh(at: usize) -> Self {
        FrozenFuture { mut_ref: Some(at), finished: false, marker: core::marker::PhantomData }
    }

    /// This suspension one step further in its exchange: with its deposit
    /// made if that was still to do, finished otherwise.
    pub closed spec fn advanced(self) -> Self {
        FrozenFuture {
            mut_ref: None,
            finished: self.mut_ref is None,
            marker: core::marker::PhantomData,
        }
    }

    /// A fresh suspension has its address to deposit; one step on it waits
    /// for the address to be taken, and one more step on it is finished.
    pub proof fn lemma_fresh(at: usize)
        ensures
            Self::fresh(at).undeposited() == Some(at),
            !Self::fresh(at).finished(),
            Self::fresh(at).advanced().undeposited() is None,
            !Self::fresh(at).advanced().finished(),
            Self::fresh(at).advanced().advanced().finished(),
    {
    }

    /// Whether the exchange is over.
    pub fn is_finished(&self) -> (b: bool)
        ensures
            b == self.finished(),
    {
        self.finished
    }

    /// Drives the exchange one step.
    ///
    /// While the address is still to be deposited, it goes into the empty
    /// slot and the computation has to suspend. Once it was deposited, an
    /// empty slot means that it was taken: the computation may go on, and
    /// the suspension is finished. A finished suspension is not driven
    /// again.
    pub fn poll(&mut self, state: &mut State<T>) -> (p: Poll<()>) where T: Family<'static>
        requires
            old(state)@.slot is None,
            !old(self).finished(),
        ensures
            *final(self) == old(self).advanced(),
            final(state)@ == (StateView { slot: old(self).undeposited(), frame: old(state)@.frame }),
            p is Pending <==> old(self).undeposited() is Some,
    {
        if state.slot.is_some() || self.finished {
            // Driven before what was deposited was taken, or once too often.
            return vstd::pervasive::unreached();
        }
        match self.mut_ref.take() {
            Some(at) => {
                state.slot = Some(at);
                Poll::Pending
            },
            None => {
                self.finished = true;
                Poll::Ready(())
            },
        }
    }
}

/// Passed to the producer of a scope so that its computation can freeze the
/// scope.
pub struct TimeCapsule<T> {
    marker: core::marker::PhantomData<T>,
}

impl<T> Clone for TimeCapsule<T> {
    fn clone(&self) -> (other: Self)
        ensures
            other == *self,
    {
        *self
    }
}

impl<T> Copy for TimeCapsule<T> {

}

impl<T> TimeCapsule<T> {
    /// The time capsule that a scope is handed when it is opened.
    pub closed spec fn injected() -> Self {
        TimeCapsule { marker: core::marker::PhantomData }
    }

    /// Freezes the scope, making the value kept at `at` available to the
    /// next entry into the scope.
    ///
    /// The scope is frozen once the computation has driven the suspension
    /// and was told to suspend.
    pub fn freeze(&mut self, at: usize) -> (fut: FrozenFuture<T>)
        ensures
            fut == FrozenFuture::<T>::fresh(at),
            *final(self) == *old(self),
    {
        FrozenFuture { mut_ref: Some(at), finished: false, marker: core::marker::PhantomData }
    }

    /// Freezes the scope forever, making the value kept at `at` available
    /// to every later entry into the scope.
    pub fn freeze_forever(&mut self, at: usize) -> (fut: FrozenForever<T>)
        ensures
            fut == FrozenForever::fresh(*old(self), at),
            *final(self) == *old(self),
    {
        let current = self.freeze(at);
        FrozenForever { at, current, time_capsule: *self }
    }
}

/// The computation that results from freezing a scope forever: whenever it
/// is resumed it freezes the scope again, on the same value.
pub struct FrozenForever<T> {
    at: usize,
    current: FrozenFuture<T>,
    time_capsule: TimeCapsule<T>,
}

impl<T> FrozenForever<T> {
    /// The computation that `time_capsule` gives when it freezes its scope
    /// forever on the value kept at `at`.
    pub closed spec fn fresh(time_capsule: TimeCapsule<T>, at: usize) -> Self {
        FrozenForever { at, current: FrozenFuture::fresh(at), time_capsule }
    }

    /// The address of the value on which the scope is frozen forever.
    pub closed spec fn address(self) -> usize {
        self.at
    }

    /// The suspension on which the computation rests.
    pub closed spec fn current(self) -> FrozenFuture<T> {
        self.current
    }

    /// The address that the next resumption deposits: the one that the
    /// suspension at rest has still to deposit, or else the one of a new
    /// suspension.
    pub open spec fn deposit(self) -> usize {
        if !self.current().finished() && self.current().undeposited() is Some {
            self.current().undeposited().unwrap()
        } else {
            self.address()
        }
    }

    /// The computation at rest after a resumption: on a suspension of its
    /// address that waits for its deposit to be taken.
    pub closed spec fn rested(self) -> Self {
        FrozenForever {
            at: self.at,
            current: FrozenFuture::fresh(self.at).advanced(),
            time_capsule: self.time_capsule,
        }
    }

    /// A computation that was just made, and one that was resumed, deposit
    /// their address at the next resumption, and rest as they are from the
    /// first resumption on.
    pub proof fn lemma_rested(time_capsule: TimeCapsule<T>, at: usize)
        ensures
            Self::fresh(time_capsule, at).address() == at,
            Self::fresh(time_capsule, at).deposit() == at,
            Self::fresh(time_capsule, at).rested().deposit() == at,
            Self::fresh(time_capsule, at).rested().rested() == Self::fresh(time_capsule, at).rested(),
    {
    }
}

impl<T> RawFuture<T> for FrozenForever<T> where T: Family<'static> {
    type Output = Never;

    open spec fn resumed(self, state: StateView<<T as Family<'static>>::Family>) -> (
        Self,
        StateView<<T as Family<'static>>::Family>,
        Poll<Never>,
    ) {
        (self.rested(), StateView { slot: Some(self.deposit()), frame: state.frame }, Poll::Pending)
    }

    fn poll(&mut self, state: &mut State<T>) -> (p: Poll<Never>) {
        if self.current.is_finished() {
            self.current = self.time_capsule.freeze(self.at);
        }
        let ghost start = self.current;
        let mut again = false;
        loop
            invariant
                state@ == old(state)@,
                state@.slot is None,
                self.at == old(self).at,
                self.time_capsule == old(self).time_capsule,
                !self.current.finished,
                !start.finished,
                start == (if old(self).current.finished {
                    FrozenFuture::<T>::fresh(self.at)
                } else {
                    old(self).current
                }),
                !again ==> self.current == start,
                again ==> self.current == FrozenFuture::<T>::fresh(self.at) && start.mut_ref is None,
            decreases
                    (if again {
                        0int
                    } else {
                        1int
                    }),
        {
            match self.current.poll(state) {
                Poll::Pending => {
                    return Poll::Pending;
                },
                Poll::Ready(_) => {
                    self.current = self.time_capsule.freeze(self.at);
                    again = true;
                },
            }
        }
    }
}

/// Why a scope refused to be opened or entered.
#[derive(Clone, Copy, Debug, PartialEq, Eq, Structural)]
pub enum ScopeError {
    /// The scope was opened before: it holds a computation already.
    AlreadyOpen,
    /// The scope was never opened: there is no computation to resume.
    NotOpen,
    /// An earlier resumption of the computation did not come back.
    Poisoned,
    /// The computation suspended without depositing anything.
    NoValue,
    /// The computation deposited an address at which it keeps nothing.
    Dangling,
}

/// Whether `f` may be called on a reference to `value`.
pub open spec fn accepts<V, Output, G: FnOnce(&mut V) -> Output>(f: G, value: V) -> bool {
    forall|r: &mut V| *r == value ==> #[trigger] call_requires(f, (r,))
}

/// An opened scope between two entries, as plain values: the paused
/// computation and the state that it shares with the outside.
pub ghost struct Paused<T, F> where T: Family<'static> {
    /// The paused computation.
    pub future: F,
    /// The shared state.
    pub state: StateView<<T as Family<'static>>::Family>,
}

impl<T, F> Paused<T, F> where T: Family<'static>, F: RawFuture<T> {
    /// The computation, the state and the report after the next resumption.
    pub open spec fn step(self) -> (F, StateView<<T as Family<'static>>::Family>, Poll<F::Output>) {
        self.future.resumed(self.state)
    }

    /// Whether the next resumption deposits the address of a kept value.
    pub open spec fn deposits(self) -> bool {
        &&& self.step().1.slot is Some
        &&& self.step().1.slot.unwrap() < self.step().1.frame.len()
    }

    /// The address that the next resumption deposits.
    pub open spec fn address(self) -> int {
        self.step().1.slot.unwrap() as int
    }

    /// The value that the next entry exposes.
    pub open spec fn exposed(self) -> <T as Family<'static>>::Family {
        self.step().1.frame[self.address()]
    }

    /// The scope after an entry in which nothing was lent: the computation
    /// was resumed and the slot was emptied.
    pub open spec fn stepped(self) -> Self {
        Paused {
            future: self.step().0,
            state: StateView { slot: None, frame: self.step().1.frame },
        }
    }

    /// The scope after an entry whose callback left `left` in the value
    /// that it was lent.
    pub open spec fn entered(self, left: <T as Family<'static>>::Family) -> Self {
        Paused {
            future: self.step().0,
            state: StateView {
                slot: None,
                frame: self.step().1.frame.update(self.address(), left),
            },
        }
    }
}

/// Underlying representation of a scope: the paused computation next to the
/// state that it shares with the outside.
pub struct RawScope<T, F> where T: Family<'static> {
    active_fut: NoFuture<F>,
    state: State<T>,
    poisoned: bool,
    opened: bool,
}

impl<T, F> RawScope<T, F> where T: Family<'static> {
    /// The paused computation, once the scope was opened.
    pub closed spec fn future(self) -> Option<F> {
        self.active_fut.object()
    }

    /// What the computation and the outside share.
    pub closed spec fn state(self) -> StateView<<T as Family<'static>>::Family> {
        self.state@
    }

    /// Whether a resumption of the computation was cut short.
    pub closed spec fn poisoned(self) -> bool {
        self.poisoned
    }

    /// Whether the scope was opened, now or earlier: a scope is opened once.
    pub closed spec fn was_opened(self) -> bool {
        self.opened
    }

    /// The invariant of a scope: outside of an entry the slot is empty.
    pub open spec fn well_formed(self) -> bool {
        self.state().slot is None
    }

    /// Whether the scope is as `new_uninit` makes it: it was never opened
    /// and holds nothing.
    pub open spec fn closed(self) -> bool {
        &&& !self.was_opened()
        &&& self.future() is None
        &&& self.state() == (StateView::<<T as Family<'static>>::Family> {
            slot: None,
            frame: Seq::empty(),
        })
        &&& !self.poisoned()
    }

    /// The opened scope as plain values.
    pub open spec fn paused(self) -> Paused<T, F> {
        Paused { future: self.future().unwrap(), state: self.state() }
    }

    /// Whether the scope can be resumed: it is open and no resumption was
    /// cut short.
    pub open spec fn resumable(self) -> bool {
        &&& self.future() is Some
        &&& !self.poisoned()
    }

    /// Creates a new closed scope.
    pub fn new_uninit() -> (this: RawScope<T, F>)
        ensures
            this.closed(),
            this.well_formed(),
    {
        let this = RawScope {
            active_fut: NoFuture::vacant(),
            state: State { slot: None, frame: Vec::new() },
            poisoned: false,
            opened: false,
        };
        assert(this.state@.frame =~= Seq::empty());
        this
    }

    /// Whether the scope was never opened and holds nothing.
    pub fn is_closed(&self) -> (b: bool)
        ensures
            b == self.closed(),
    {
        let b = !self.opened && self.active_fut.is_vacant() && !self.poisoned
            && self.state.slot.is_none() && self.state.frame.len() == 0;
        assert(self.state@.frame.len() == 0 ==> self.state@.frame =~= Seq::empty());
        b
    }

    /// Closes the scope: drops the paused computation, if there is one,
    /// while the state that it shares with the outside is still there.
    pub fn close(&mut self)
        ensures
            final(self).future() is None,
            final(self).state() == old(self).state(),
            final(self).poisoned() == old(self).poisoned(),
            final(self).was_opened() == old(self).was_opened(),
        opens_invariants none
        no_unwind
    {
        self.active_fut.drop_future();
    }
}

impl<T, F> RawScope<T, F> where T: Family<'static>, F: RawFuture<T, Output = Never> {
    /// Opens the scope unless it was opened before: runs `scope` on a time
    /// capsule and keeps the paused computation that it gives, not yet
    /// resumed. A scope that is not closed any more is left as it is, also
    /// where its computation was dropped since, and `scope` is dropped
    /// without being run.
    pub fn try_open<S: TopScope<Family = T, Future = F>>(&mut self, scope: S) -> (res: Result<
        (),
        ScopeError,
    >)
        ensures
            !old(self).closed() ==> res == Err::<(), ScopeError>(ScopeError::AlreadyOpen)
                && *final(self) == *old(self),
            old(self).closed() ==> res is Ok && final(self).was_opened()
                && final(self).resumable()
                && scope.runs(TimeCapsule::injected(), final(self).future().unwrap())
                && final(self).state() == old(self).state(),
    {
        if self.is_closed() {
            let time_capsule = TimeCapsule { marker: core::marker::PhantomData };
            let fut = scope.run(time_capsule);
            self.active_fut = NoFuture::new(fut);
            self.opened = true;
            Ok(())
        } else {
            Err(ScopeError::AlreadyOpen)
        }
    }

    /// Opens a scope that was never opened.
    pub fn open<S: TopScope<Family = T, Future = F>>(&mut self, scope: S)
        requires
            old(self).closed(),
        ensures
            final(self).was_opened(),
            final(self).resumable(),
            final(self).well_formed(),
            scope.runs(TimeCapsule::injected(), final(self).future().unwrap()),
            final(self).state() == old(self).state(),
    {
        match self.try_open(scope) {
            Ok(_) => {},
            Err(_) => vstd::pervasive::unreached(),
        }
    }

    /// Why the next entry is refused, if it is.
    pub open spec fn refusal(self) -> Option<ScopeError> {
        if self.future() is None {
            Some(ScopeError::NotOpen)
        } else if self.poisoned() {
            Some(ScopeError::Poisoned)
        } else if self.paused().step().1.slot is None {
            Some(ScopeError::NoValue)
        } else if !self.paused().deposits() {
            Some(ScopeError::Dangling)
        } else {
            None
        }
    }

    /// Resumes the computation once and takes what it deposited out of the
    /// slot, which is empty from then on.
    fn drive(&mut self) -> (at: Option<usize>)
        requires
            old(self).well_formed(),
            old(self).resumable(),
        ensures
            at == old(self).paused().step().1.slot,
            final(self).well_formed(),
            final(self).resumable(),
            final(self).was_opened() == old(self).was_opened(),
            final(self).paused() == old(self).paused().stepped(),
    {
        // Stays set if the resumption unwinds instead of returning.
        self.poisoned = true;
        let p = self.active_fut.poll(&mut self.state);
        self.poisoned = false;
        match p {
            Poll::Ready(never) => {
                proof {
                    use_type_invariant(&never);
                }
                never.absurd()
            },
            Poll::Pending => self.state.slot.take(),
        }
    }

    /// Enters the scope if it can be entered, and says why not otherwise.
    ///
    /// A scope that is not open or is poisoned is left as it is. Otherwise
    /// the computation is resumed once, and the slot is emptied before
    /// anything else is done: it is empty however the entry ends. The value
    /// whose address was deposited is then lent to `f`; where nothing was
    /// deposited, or an address at which nothing is kept, `f` is dropped.
    pub fn try_enter<Output, G>(&mut self, f: G) -> (res: Result<Output, ScopeError>) where
        G: FnOnce(&mut <T as Family<'static>>::Family) -> Output,

        requires
            old(self).well_formed(),
            old(self).refusal() is None ==> accepts(f, old(self).paused().exposed()),
        ensures
            final(self).well_formed(),
            final(self).was_opened() == old(self).was_opened(),
            match old(self).refusal() {
                Some(e) => res == Err::<Output, ScopeError>(e),
                None => res is Ok,
            },
            !old(self).resumable() ==> *final(self) == *old(self),
            old(self).resumable() ==> final(self).resumable(),
            old(self).resumable() && res is Err ==> final(self).paused() == old(
                self,
            ).paused().stepped(),
            res matches Ok(out) ==> exists|r: &mut <T as Family<'static>>::Family|
                *r == old(self).paused().exposed() && #[trigger] call_ensures(f, (r,), out)
                    && final(self).paused() == old(self).paused().entered(*final(r)),
    {
        if self.active_fut.is_vacant() {
            return Err(ScopeError::NotOpen);
        }
        if self.poisoned {
            return Err(ScopeError::Poisoned);
        }
        match self.drive() {
            None => Err(ScopeError::NoValue),
            Some(at) => {
                if at < self.state.frame.len() {
                    let mut_ref = &mut self.state.frame[at];
                    let out = f(mut_ref);
                    assert(self.paused() == old(self).paused().entered(self.state@.frame[at as int]))
                        by {
                        assert(self.state@.frame =~= old(self).paused().step().1.frame.update(
                            at as int,
                            self.state@.frame[at as int],
                        ));
                    }
                    let res: Result<Output, ScopeError> = Ok(out);
                    assert(res matches Ok(o) && o == out);
                    res
                } else {
                    Err(ScopeError::Dangling)
                }
            },
        }
    }

    /// Enters the scope: resumes the computation once and lends the value
    /// whose address it deposited to `f`.
    pub fn enter<Output, G>(&mut self, f: G) -> (out: Output) where
        G: FnOnce(&mut <T as Family<'static>>::Family) -> Output,

        requires
            old(self).well_formed(),
            old(self).resumable(),
            old(self).paused().deposits(),
            accepts(f, old(self).paused().exposed()),
        ensures
            final(self).well_formed(),
            final(self).resumable(),
            final(self).was_opened() == old(self).was_opened(),
            exists|r: &mut <T as Family<'static>>::Family|
                *r == old(self).paused().exposed() && #[trigger] call_ensures(f, (r,), out)
                    && final(self).paused() == old(self).paused().entered(*final(r)),
    {
        match self.try_enter(f) {
            Ok(out) => out,
            Err(_) => vstd::pervasive::unreached(),
        }
    }
}

} // verus!
