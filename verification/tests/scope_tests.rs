use std::cell::Cell;
use std::rc::Rc;

use nolife::{
    new_scope, BoxScope, ClosedStackScope, Counter, Counting, Forever, FrozenForever,
    FrozenFuture, Never, NoFuture, Poll, RawFuture, RawScope, Scope, ScopeError, SingleFamily,
    StackScope, State, TimeCapsule, TopScope,
};

// A scope that exposes the length of a borrowed string, forever.

struct LenForever<'a> {
    s: &'a str,
    time_capsule: TimeCapsule<SingleFamily<usize>>,
    forever: Option<FrozenForever<SingleFamily<usize>>>,
}

impl<'a> RawFuture<SingleFamily<usize>> for LenForever<'a> {
    type Output = Never;

    fn poll(&mut self, state: &mut State<SingleFamily<usize>>) -> Poll<Never> {
        if self.forever.is_none() {
            let at = state.keep(self.s.len());
            self.forever = Some(self.time_capsule.freeze_forever(at));
        }
        match &mut self.forever {
            Some(forever) => forever.poll(state),
            None => Poll::Pending,
        }
    }
}

fn scope_with_ref<'scope, 'a: 'scope>(
    s: &'a str,
) -> impl TopScope<Family = SingleFamily<usize>, Future = LenForever<'a>> + 'scope {
    new_scope(move |time_capsule| LenForever { s, time_capsule, forever: None })
}

// A scope that freezes on 40, then goes on and freezes on 42 forever. After
// the first freeze it may wait for something that is never going to be
// signalled.

struct TwoStage {
    wait_forever: bool,
}

struct TwoStageFuture {
    wait_forever: bool,
    time_capsule: TimeCapsule<SingleFamily<u32>>,
    first: Option<FrozenFuture<SingleFamily<u32>>>,
    forever: Option<FrozenForever<SingleFamily<u32>>>,
}

impl RawFuture<SingleFamily<u32>> for TwoStageFuture {
    type Output = Never;

    fn poll(&mut self, state: &mut State<SingleFamily<u32>>) -> Poll<Never> {
        if self.forever.is_none() {
            if self.first.is_none() {
                let at = state.keep(40);
                self.first = Some(self.time_capsule.freeze(at));
            }
            match &mut self.first {
                // A finished suspension is not driven again.
                Some(first) if !first.is_finished() => match first.poll(state) {
                    Poll::Pending => return Poll::Pending,
                    Poll::Ready(()) => {}
                },
                _ => {}
            }
            if self.wait_forever {
                return Poll::Pending;
            }
            let at = state.keep(42);
            self.forever = Some(self.time_capsule.freeze_forever(at));
        }
        match &mut self.forever {
            Some(forever) => forever.poll(state),
            None => Poll::Pending,
        }
    }
}

impl Scope for TwoStage {
    type Family = SingleFamily<u32>;
    type Output = Never;
    type Future = TwoStageFuture;

    fn run(self, time_capsule: TimeCapsule<SingleFamily<u32>>) -> TwoStageFuture {
        TwoStageFuture { wait_forever: self.wait_forever, time_capsule, first: None, forever: None }
    }
}

// A scope that freezes forever on an address that it was told, whether it
// keeps something there or not, and that counts how often it is dropped.

struct Pointing {
    at: usize,
    kept: Vec<u32>,
    drops: Rc<Cell<u32>>,
}

struct PointingFuture {
    kept: Vec<u32>,
    forever: FrozenForever<SingleFamily<u32>>,
    drops: Rc<Cell<u32>>,
}

impl Drop for PointingFuture {
    fn drop(&mut self) {
        self.drops.set(self.drops.get() + 1);
    }
}

impl RawFuture<SingleFamily<u32>> for PointingFuture {
    type Output = Never;

    fn poll(&mut self, state: &mut State<SingleFamily<u32>>) -> Poll<Never> {
        for value in self.kept.drain(..) {
            state.keep(value);
        }
        self.forever.poll(state)
    }
}

impl Scope for Pointing {
    type Family = SingleFamily<u32>;
    type Output = Never;
    type Future = PointingFuture;

    fn run(self, mut time_capsule: TimeCapsule<SingleFamily<u32>>) -> PointingFuture {
        PointingFuture {
            kept: self.kept,
            forever: time_capsule.freeze_forever(self.at),
            drops: self.drops,
        }
    }
}

// Counts how often it is dropped.

struct Tally {
    drops: Rc<Cell<u32>>,
}

impl Drop for Tally {
    fn drop(&mut self) {
        self.drops.set(self.drops.get() + 1);
    }
}

// A scope that owns a buffer, exposes it and appends to it between two
// entries.

struct Spelling {
    word: Vec<char>,
}

struct SpellingFuture {
    word: Vec<char>,
    next: usize,
    at: Option<usize>,
    time_capsule: TimeCapsule<SingleFamily<String>>,
}

impl RawFuture<SingleFamily<String>> for SpellingFuture {
    type Output = Never;

    fn poll(&mut self, state: &mut State<SingleFamily<String>>) -> Poll<Never> {
        let at = match self.at {
            None => state.keep(String::new()),
            Some(at) => at,
        };
        self.at = Some(at);
        if self.next < self.word.len() {
            if let Some(buffer) = state.get_mut(at) {
                buffer.push(self.word[self.next]);
            }
            self.next += 1;
        }
        let mut frozen = self.time_capsule.freeze(at);
        let _ = frozen.poll(state);
        Poll::Pending
    }
}

impl Scope for Spelling {
    type Family = SingleFamily<String>;
    type Output = Never;
    type Future = SpellingFuture;

    fn run(self, time_capsule: TimeCapsule<SingleFamily<String>>) -> SpellingFuture {
        SpellingFuture { word: self.word, next: 0, at: None, time_capsule }
    }
}

// A scope whose computation reports what it sees of the state and of its
// suspensions in the value that it exposes.

struct Probing;

struct ProbingFuture {
    time_capsule: TimeCapsule<SingleFamily<Vec<u32>>>,
    frozen: Option<FrozenFuture<SingleFamily<Vec<u32>>>>,
}

impl RawFuture<SingleFamily<Vec<u32>>> for ProbingFuture {
    type Output = Never;

    fn poll(&mut self, state: &mut State<SingleFamily<Vec<u32>>>) -> Poll<Never> {
        let mut report = Vec::new();
        report.push(state.len() as u32);
        report.push(state.is_frozen() as u32);
        if let Some(frozen) = &mut self.frozen {
            // The deposit of the last resumption was taken: the suspension is over.
            report.push(matches!(frozen.poll(state), Poll::Ready(())) as u32);
            report.push(frozen.is_finished() as u32);
            report.push(state.is_frozen() as u32);
        }
        let at = state.keep(Vec::new());
        report.push(at as u32);
        report.push(state.len() as u32);
        report.push(state.get(at).is_some() as u32);
        report.push(state.get(at + 1).is_some() as u32);
        report.push(state.get_mut(at + 1).is_some() as u32);
        let mut time_capsule = self.time_capsule.clone();
        let mut frozen = time_capsule.freeze(at);
        report.push(matches!(frozen.poll(state), Poll::Pending) as u32);
        report.push(frozen.is_finished() as u32);
        report.push(state.is_frozen() as u32);
        if let Some(kept) = state.get_mut(at) {
            *kept = report;
        }
        self.frozen = Some(frozen);
        Poll::Pending
    }
}

impl Scope for Probing {
    type Family = SingleFamily<Vec<u32>>;
    type Output = Never;
    type Future = ProbingFuture;

    fn run(self, time_capsule: TimeCapsule<SingleFamily<Vec<u32>>>) -> ProbingFuture {
        ProbingFuture { time_capsule, frozen: None }
    }
}

// A computation whose type is erased behind a trait object.

trait Resume {
    fn resume(&mut self, state: &mut State<SingleFamily<u32>>) -> Poll<Never>;
}

impl<F: RawFuture<SingleFamily<u32>, Output = Never>> Resume for F {
    fn resume(&mut self, state: &mut State<SingleFamily<u32>>) -> Poll<Never> {
        self.poll(state)
    }
}

struct Erased {
    object: Box<dyn Resume>,
}

impl RawFuture<SingleFamily<u32>> for Erased {
    type Output = Never;

    fn poll(&mut self, state: &mut State<SingleFamily<u32>>) -> Poll<Never> {
        self.object.resume(state)
    }
}

fn is_send<S: Send>(_: &S) {}

fn is_sync<S: Sync>(_: &S) {}

#[test]
fn produce_output() {
    let mut scope = BoxScope::<SingleFamily<u32>, _>::new(Counter {});

    assert_eq!(scope.enter(|x| *x + 42), 42);
    assert_eq!(scope.enter(|x| *x + 42), 43);
    scope.enter(|x| *x += 100);
    assert_eq!(scope.enter(|x| *x + 42), 145);
}

#[test]
fn produce_output_erased() {
    let mut scope = BoxScope::<SingleFamily<u32>, Erased>::new(new_scope(|time_capsule| Erased {
        object: Box::new(Counter {}.run(time_capsule)),
    }));

    assert_eq!(scope.enter(|x| *x + 42), 42);
    assert_eq!(scope.enter(|x| *x + 42), 43);
    scope.enter(|x| *x += 100);
    assert_eq!(scope.enter(|x| *x + 42), 145);
}

#[test]
fn scope_can_change_threads() {
    let mut scope = BoxScope::<SingleFamily<u32>, _>::new(Counter {});
    is_send(&scope);
    is_sync(&scope);
    assert_eq!(scope.enter(|x| *x + 42), 42);
}

#[test]
fn panicking_enter() {
    let mut scope = BoxScope::<SingleFamily<u32>, _>::new(Counter {});

    scope.enter(|x| assert_eq!(*x, 0));

    let gave_up: Result<(), ()> = scope.enter(|_| Err(()));
    assert!(gave_up.is_err());

    // '1' skipped: the callback that was lent it gave up
    scope.enter(|x| assert_eq!(*x, 2));
}

#[test]
fn ref_scope() {
    let x = "Intel the Beagle".to_string();
    let mut scope = BoxScope::<SingleFamily<usize>, _>::new(scope_with_ref(&x));

    scope.enter(|x| assert_eq!(*x, 16));
}

#[test]
fn awaiting_in_scope_ready() {
    let mut scope = BoxScope::<SingleFamily<u32>, _>::new(TwoStage { wait_forever: false });

    scope.enter(|x| assert_eq!(*x, 40));
    scope.enter(|x| assert_eq!(*x, 42));
}

#[test]
fn awaiting_in_scope_panics() {
    let mut scope = BoxScope::<SingleFamily<u32>, _>::new(TwoStage { wait_forever: true });

    scope.enter(|x| assert_eq!(*x, 40));

    assert_eq!(scope.try_enter(|x| assert_eq!(*x, 42)), Err(ScopeError::NoValue));
}

#[test]
fn waiting_scope_stays_refused() {
    let mut scope = BoxScope::<SingleFamily<u32>, _>::new(TwoStage { wait_forever: true });

    assert_eq!(scope.try_enter(|x| *x), Ok(40));
    assert_eq!(scope.try_enter(|x| *x), Err(ScopeError::NoValue));
    assert_eq!(scope.try_enter(|x| *x), Err(ScopeError::NoValue));
}

#[test]
fn counter_counts_entries() {
    let mut scope = BoxScope::<SingleFamily<u32>, Counting>::new(Counter {});

    for k in 0..100u32 {
        assert_eq!(scope.enter(|x| *x), k);
    }
}

#[test]
fn counter_goes_on_from_what_the_callback_left() {
    let mut scope = BoxScope::<SingleFamily<u32>, Counting>::new(Counter {});

    assert_eq!(scope.enter(|x| *x), 0);
    scope.enter(|x| *x = 1000);
    assert_eq!(scope.enter(|x| *x), 1001);
    scope.enter(|x| *x = 7);
    assert_eq!(scope.enter(|x| *x), 8);
}

#[test]
fn counter_starts_over_after_the_greatest() {
    let mut scope = BoxScope::<SingleFamily<u32>, Counting>::new(Counter {});

    scope.enter(|x| *x = u32::MAX);
    assert_eq!(scope.enter(|x| *x), 0);
    assert_eq!(scope.enter(|x| *x), 1);
}

#[test]
fn mutation_round_trips() {
    let drops = Rc::new(Cell::new(0));
    let mut scope = BoxScope::<SingleFamily<u32>, _>::new(Pointing {
        at: 1,
        kept: vec![10, 20, 30],
        drops,
    });

    assert_eq!(scope.enter(|x| *x), 20);
    scope.enter(|x| *x = 77);
    scope.enter(|x| assert_eq!(*x, 77));
    assert_eq!(scope.enter(|x| *x), 77);
}

#[test]
fn view_matches_buffer() {
    let mut scope =
        BoxScope::<SingleFamily<String>, _>::new(Spelling { word: vec!['a', 'b', 'c'] });

    assert_eq!(scope.enter(|s| s.clone()), "a");
    assert_eq!(scope.enter(|s| s.clone()), "ab");
    // The third entry is lent "abc" and appends to it.
    scope.enter(|s| s.push('!'));
    assert_eq!(scope.enter(|s| s.clone()), "abc!");
    assert_eq!(scope.enter(|s| s.len()), 4);
}

#[test]
fn second_open_is_refused() {
    let drops = Rc::new(Cell::new(0));
    {
        let mut raw = RawScope::<SingleFamily<u32>, PointingFuture>::new_uninit();
        assert_eq!(
            raw.try_open(Pointing { at: 0, kept: vec![5], drops: drops.clone() }),
            Ok(())
        );
        assert_eq!(
            raw.try_open(Pointing { at: 0, kept: vec![6], drops: drops.clone() }),
            Err(ScopeError::AlreadyOpen)
        );
        // The scope that was refused was never run: no computation of it exists.
        assert_eq!(drops.get(), 0);
        // The first computation is the one that is resumed.
        assert_eq!(raw.enter(|x| *x), 5);
        assert_eq!(drops.get(), 0);
    }
    assert_eq!(drops.get(), 1);
}

#[test]
fn dropping_unentered_scope_drops_computation() {
    let drops = Rc::new(Cell::new(0));
    let scope = BoxScope::<SingleFamily<u32>, _>::new(Pointing {
        at: 0,
        kept: vec![1],
        drops: drops.clone(),
    });
    assert_eq!(drops.get(), 0);
    drop(scope);
    assert_eq!(drops.get(), 1);
}

#[test]
fn unopened_scope_is_refused() {
    let mut raw = RawScope::<SingleFamily<u32>, Counting>::new_uninit();

    assert_eq!(raw.try_enter(|x| *x), Err(ScopeError::NotOpen));
    raw.open(Counter {});
    assert_eq!(raw.try_enter(|x| *x), Ok(0));
    assert_eq!(raw.try_enter(|x| *x), Ok(1));
}

#[test]
fn dangling_address_is_refused() {
    let drops = Rc::new(Cell::new(0));
    let mut scope = BoxScope::<SingleFamily<u32>, _>::new(Pointing {
        at: 3,
        kept: vec![10, 20, 30],
        drops,
    });

    assert_eq!(scope.try_enter(|x| *x), Err(ScopeError::Dangling));
    assert_eq!(scope.try_enter(|x| *x), Err(ScopeError::Dangling));
}

#[test]
fn stack_scope_counter() {
    let mut raw = RawScope::<SingleFamily<u32>, Counting>::new_uninit();
    let closed = ClosedStackScope::new_unchecked(&mut raw);
    let mut scope = closed.open(Counter {});

    assert_eq!(scope.enter(|x| *x + 42), 42);
    assert_eq!(scope.enter(|x| *x + 42), 43);
    scope.enter(|x| *x += 100);
    assert_eq!(scope.enter(|x| *x + 42), 145);
    assert_eq!(scope.try_enter(|x| *x), Ok(104));
}

#[test]
fn dropping_stack_scope_drops_computation() {
    let drops = Rc::new(Cell::new(0));
    let mut raw = RawScope::<SingleFamily<u32>, PointingFuture>::new_uninit();
    {
        let mut scope = StackScope::new_unchecked(&mut raw).open(Pointing {
            at: 0,
            kept: vec![4],
            drops: drops.clone(),
        });
        assert_eq!(scope.enter(|x| *x), 4);
        assert_eq!(drops.get(), 0);
    }
    // The handle took the computation with it and left the state closed.
    assert_eq!(drops.get(), 1);
    assert_eq!(raw.try_enter(|x| *x), Err(ScopeError::NotOpen));
    drop(raw);
    assert_eq!(drops.get(), 1);
}

#[test]
fn closing_drops_the_computation_and_keeps_the_state() {
    let drops = Rc::new(Cell::new(0));
    let mut raw = RawScope::<SingleFamily<u32>, PointingFuture>::new_uninit();
    raw.open(Pointing { at: 0, kept: vec![8], drops: drops.clone() });
    assert_eq!(raw.enter(|x| *x), 8);
    raw.close();
    assert_eq!(drops.get(), 1);
    assert_eq!(raw.try_enter(|x| *x), Err(ScopeError::NotOpen));
    raw.close();
    assert_eq!(drops.get(), 1);
}

#[test]
fn closed_scope_is_not_opened_again() {
    let drops = Rc::new(Cell::new(0));
    let mut raw = RawScope::<SingleFamily<u32>, PointingFuture>::new_uninit();
    assert!(raw.is_closed());
    raw.open(Pointing { at: 0, kept: vec![8], drops: drops.clone() });
    assert!(!raw.is_closed());
    // Dropping the computation before it was ever resumed leaves nothing in
    // the state, and still the scope is not closed again.
    raw.close();
    assert!(!raw.is_closed());
    assert_eq!(
        raw.try_open(Pointing { at: 0, kept: vec![9], drops: drops.clone() }),
        Err(ScopeError::AlreadyOpen)
    );
    assert_eq!(raw.try_enter(|x| *x), Err(ScopeError::NotOpen));
    assert_eq!(drops.get(), 1);
}

#[test]
fn state_of_a_dropped_stack_scope_is_not_opened_again() {
    let mut raw = RawScope::<SingleFamily<u32>, Counting>::new_uninit();
    {
        let mut scope = StackScope::new_unchecked(&mut raw).open(Counter {});
        assert_eq!(scope.enter(|x| *x), 0);
    }
    assert_eq!(raw.try_open(Counter {}), Err(ScopeError::AlreadyOpen));
    assert_eq!(raw.try_enter(|x| *x), Err(ScopeError::NotOpen));
}

#[test]
fn kept_value_round_trips() {
    let mut scope = BoxScope::<SingleFamily<u32>, _>::new(Forever::new(5u32));

    assert_eq!(scope.enter(|x| *x), 5);
    scope.enter(|x| *x = 77);
    scope.enter(|x| assert_eq!(*x, 77));
    assert_eq!(scope.enter(|x| *x), 77);
    scope.enter(|x| *x += 1);
    assert_eq!(scope.enter(|x| *x), 78);
}

#[test]
fn kept_value_is_exposed_on_the_stack_too() {
    let mut raw = RawScope::<SingleFamily<String>, _>::new_uninit();
    let mut scope = ClosedStackScope::new_unchecked(&mut raw).open(Forever::new("a".to_string()));

    scope.enter(|s| s.push('b'));
    assert_eq!(scope.enter(|s| s.clone()), "ab");
}

#[test]
fn suspension_is_single_shot() {
    let mut scope = BoxScope::<SingleFamily<Vec<u32>>, _>::new(Probing);

    // First resumption: nothing is kept, nothing is deposited, there is no
    // suspension yet; then one value is kept at 0 and the deposit suspends.
    assert_eq!(scope.enter(|r| r.clone()), vec![0, 0, 0, 1, 1, 0, 0, 1, 0, 1]);
    // Second resumption: the slot was emptied by the entry, the suspension of
    // the last resumption reports that it is over, is finished and deposits
    // nothing again.
    assert_eq!(scope.enter(|r| r.clone()), vec![1, 0, 1, 1, 0, 1, 2, 1, 0, 0, 1, 0, 1]);
}

#[test]
fn no_future_holds_at_most_one_computation() {
    let vacant = NoFuture::<u8>::vacant();
    assert!(vacant.is_vacant());

    let mut held = NoFuture::new(5u8);
    assert!(!held.is_vacant());
    held.drop_future();
    assert!(held.is_vacant());
    held.drop_future();
    assert!(held.is_vacant());
}

#[test]
fn no_future_drops_the_computation_once() {
    let drops = Rc::new(Cell::new(0));
    let mut held = NoFuture::new(Tally { drops: drops.clone() });
    assert_eq!(drops.get(), 0);
    held.drop_future();
    assert_eq!(drops.get(), 1);
    drop(held);
    assert_eq!(drops.get(), 1);
}
