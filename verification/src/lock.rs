//! Waiting for the lock that lets a single process ask the service, or for the cache that the
//! process holding it leaves behind.

use crate::calls::{WaitCall, WaitCalls};
use vstd::prelude::*;

verus! {

/// Pause between two attempts, in milliseconds.
pub const LOCK_RETRY_INTERVAL_MS: u64 = 200;

/// How many times the lock is tried again after the first attempt: about three seconds.
pub const LOCK_RETRY_ATTEMPTS: u32 = 15;

/// How waiting for the lock ended.
pub enum LockAcquireResult<C> {
    /// The lock is held.
    Acquired,
    /// Another process left a fresh cache.
    Cache(C),
    /// Neither came in time.
    TimedOut,
}

/// What has to be done next while waiting.
#[derive(Clone, Copy, Debug, PartialEq, Eq, Structural)]
pub enum WaitAction {
    /// Try to take the lock without blocking.
    TryLock,
    /// Look for a fresh cache.
    LoadCache,
    /// Pause for `LOCK_RETRY_INTERVAL_MS`.
    Sleep,
}

/// What came of an action.
pub enum WaitEvent<C> {
    /// Whether the lock was taken.
    Locked(bool),
    /// The fresh cache, if there is one.
    Loaded(Option<C>),
    /// The pause is over.
    Slept,
}

/// A wait that is not over: the number of attempts behind it and the action that is due.
#[derive(Clone, Copy, Debug, PartialEq, Eq, Structural)]
pub struct LockWait {
    pub attempt: u32,
    pub action: WaitAction,
}

/// A wait after an event: still going on, or over.
pub enum WaitProgress<C> {
    Waiting(LockWait),
    Finished(LockAcquireResult<C>),
}

impl LockWait {
    /// No attempt beyond the last, and no pause after it.
    pub open spec fn wf(self) -> bool {
        &&& self.attempt <= LOCK_RETRY_ATTEMPTS
        &&& self.action == WaitAction::Sleep ==> self.attempt < LOCK_RETRY_ATTEMPTS
    }

    /// Whether an event answers the action that is due.
    pub open spec fn accepts<C>(self, event: WaitEvent<C>) -> bool {
        match event {
            WaitEvent::Locked(_) => self.action == WaitAction::TryLock,
            WaitEvent::Loaded(_) => self.action == WaitAction::LoadCache,
            WaitEvent::Slept => self.action == WaitAction::Sleep,
        }
    }

    /// Where an event leads.
    ///
    /// The lock ends the wait, and so does a cache; after the last attempt there is no other
    /// pause.
    pub open spec fn advanced<C>(self, event: WaitEvent<C>) -> WaitProgress<C> {
        match event {
            WaitEvent::Locked(true) => WaitProgress::Finished(LockAcquireResult::Acquired),
            WaitEvent::Locked(false) => WaitProgress::Waiting(
                LockWait { attempt: self.attempt, action: WaitAction::LoadCache },
            ),
            WaitEvent::Loaded(Some(cache)) => WaitProgress::Finished(
                LockAcquireResult::Cache(cache),
            ),
            WaitEvent::Loaded(None) => if self.attempt >= LOCK_RETRY_ATTEMPTS {
                WaitProgress::Finished(LockAcquireResult::TimedOut)
            } else {
                WaitProgress::Waiting(
                    LockWait { attempt: self.attempt, action: WaitAction::Sleep },
                )
            },
            WaitEvent::Slept => WaitProgress::Waiting(
                LockWait { attempt: (self.attempt + 1) as u32, action: WaitAction::TryLock },
            ),
        }
    }

    /// The start of a wait: the lock is tried at once.
    pub open spec fn initial() -> LockWait {
        LockWait { attempt: 0, action: WaitAction::TryLock }
    }

    /// Begins to wait.
    pub fn start() -> (w: LockWait)
        ensures
            w == LockWait::initial(),
            w.wf(),
    {
        LockWait { attempt: 0, action: WaitAction::TryLock }
    }

    /// Takes the answer to the action that was due.
    pub fn step<C>(self, event: WaitEvent<C>) -> (p: WaitProgress<C>)
        requires
            self.wf(),
            self.accepts(event),
        ensures
            p == self.advanced(event),
            p matches WaitProgress::Waiting(w) ==> w.wf(),
    {
        match event {
            WaitEvent::Locked(locked) => if locked {
                WaitProgress::Finished(LockAcquireResult::Acquired)
            } else {
                WaitProgress::Waiting(
                    LockWait { attempt: self.attempt, action: WaitAction::LoadCache },
                )
            },
            WaitEvent::Loaded(Some(cache)) => WaitProgress::Finished(
                LockAcquireResult::Cache(cache),
            ),
            WaitEvent::Loaded(None) => if self.attempt >= LOCK_RETRY_ATTEMPTS {
                WaitProgress::Finished(LockAcquireResult::TimedOut)
            } else {
                WaitProgress::Waiting(
                    LockWait { attempt: self.attempt, action: WaitAction::Sleep },
                )
            },
            WaitEvent::Slept => WaitProgress::Waiting(
                LockWait { attempt: self.attempt + 1, action: WaitAction::TryLock },
            ),
        }
    }
}

/// Where a wait stands after a series of events.
pub open spec fn wait_after<C>(events: Seq<WaitEvent<C>>) -> WaitProgress<C>
    decreases events.len(),
{
    if events.len() == 0 {
        WaitProgress::Waiting(LockWait::initial())
    } else {
        match wait_after(events.drop_last()) {
            WaitProgress::Waiting(w) => w.advanced(events.last()),
            WaitProgress::Finished(r) => WaitProgress::Finished(r),
        }
    }
}

/// Whether each event answers the action that was due when it came.
pub open spec fn is_wait<C>(events: Seq<WaitEvent<C>>) -> bool
    decreases events.len(),
{
    events.len() == 0 || {
        &&& is_wait(events.drop_last())
        &&& wait_after(events.drop_last()) matches WaitProgress::Waiting(w) && w.accepts(
            events.last(),
        )
    }
}

/// How often the lock was tried.
pub open spec fn tries<C>(events: Seq<WaitEvent<C>>) -> nat
    decreases events.len(),
{
    if events.len() == 0 {
        0
    } else {
        tries(events.drop_last()) + if events.last() is Locked {
            1nat
        } else {
            0nat
        }
    }
}

/// How often there was a pause.
pub open spec fn pauses<C>(events: Seq<WaitEvent<C>>) -> nat
    decreases events.len(),
{
    if events.len() == 0 {
        0
    } else {
        pauses(events.drop_last()) + if events.last() is Slept {
            1nat
        } else {
            0nat
        }
    }
}

/// Whether an event is a success: the lock, or a cache.
pub open spec fn succeeds<C>(event: WaitEvent<C>) -> bool {
    event == WaitEvent::<C>::Locked(true) || event matches WaitEvent::Loaded(Some(_))
}

/// A wait tries the lock at most once more than `LOCK_RETRY_ATTEMPTS` times and pauses at most
/// `LOCK_RETRY_ATTEMPTS` times. While it goes on, the attempts behind it are exactly the pauses.
/// It times out only when every attempt has been made.
pub proof fn law_wait_is_bounded<C>(events: Seq<WaitEvent<C>>)
    requires
        is_wait(events),
    ensures
        tries(events) <= LOCK_RETRY_ATTEMPTS + 1,
        pauses(events) <= LOCK_RETRY_ATTEMPTS,
        events.len() <= 3 * (LOCK_RETRY_ATTEMPTS + 1) - 1,
        match wait_after(events) {
            WaitProgress::Waiting(w) => {
                &&& w.wf()
                &&& pauses(events) == w.attempt
                &&& tries(events) == w.attempt + if w.action == WaitAction::TryLock {
                    0int
                } else {
                    1int
                }
                &&& events.len() == 3 * w.attempt + match w.action {
                    WaitAction::TryLock => 0int,
                    WaitAction::LoadCache => 1int,
                    WaitAction::Sleep => 2int,
                }
            },
            WaitProgress::Finished(LockAcquireResult::TimedOut) => {
                &&& tries(events) == LOCK_RETRY_ATTEMPTS + 1
                &&& pauses(events) == LOCK_RETRY_ATTEMPTS
                &&& events.len() == 3 * (LOCK_RETRY_ATTEMPTS + 1) - 1
            },
            WaitProgress::Finished(LockAcquireResult::Acquired) => {
                &&& tries(events) == pauses(events) + 1
                &&& events.len() == 3 * pauses(events) + 1
            },
            WaitProgress::Finished(LockAcquireResult::Cache(_)) => {
                &&& tries(events) == pauses(events) + 1
                &&& events.len() == 3 * pauses(events) + 2
            },
        },
    decreases events.len(),
{
    if events.len() > 0 {
        law_wait_is_bounded(events.drop_last());
    }
}

/// A wait ends with the first success, and as that success says; without one it goes on or times
/// out.
pub proof fn law_first_success_decides<C>(events: Seq<WaitEvent<C>>)
    requires
        is_wait(events),
    ensures
        forall|i: int|
            0 <= i < events.len() - 1 ==> !succeeds(#[trigger] events[i]),
        match wait_after(events) {
            WaitProgress::Waiting(_) | WaitProgress::Finished(LockAcquireResult::TimedOut) =>
                forall|i: int| 0 <= i < events.len() ==> !succeeds(#[trigger] events[i]),
            WaitProgress::Finished(LockAcquireResult::Acquired) => events.len() > 0
                && events.last() == WaitEvent::<C>::Locked(true),
            WaitProgress::Finished(LockAcquireResult::Cache(cache)) => events.len() > 0
                && events.last() == WaitEvent::Loaded(Some(cache)),
        },
    decreases events.len(),
{
    if events.len() > 0 {
        let before = events.drop_last();
        law_first_success_decides(before);
        assert forall|i: int| 0 <= i < events.len() - 1 implies !succeeds(#[trigger] events[i]) by {
            assert(events[i] == before[i]);
        }
    }
}

/// How long a wait can last: sixteen attempts with fifteen pauses of a fifth of a second between
/// them. It times out exactly when all sixteen have brought neither the lock nor a cache.
pub proof fn law_wait_lasts_three_seconds<C>(events: Seq<WaitEvent<C>>)
    requires
        is_wait(events),
    ensures
        LOCK_RETRY_INTERVAL_MS == 200,
        tries(events) <= 16,
        pauses(events) <= 15,
        pauses(events) * LOCK_RETRY_INTERVAL_MS <= 3000,
        wait_after(events) == WaitProgress::Finished(LockAcquireResult::<C>::TimedOut) <==> {
            &&& events.len() == 47
            &&& forall|i: int|
                0 <= i < events.len() ==> !(#[trigger] events[i] matches WaitEvent::Locked(true))
                    && !(events[i] matches WaitEvent::Loaded(Some(_)))
        },
{
    law_wait_is_bounded(events);
    law_first_success_decides(events);
    if wait_after(events) == WaitProgress::Finished(LockAcquireResult::<C>::TimedOut) {
        assert forall|i: int| 0 <= i < events.len() implies !(#[trigger] events[i] matches WaitEvent::Locked(
            true,
        )) && !(events[i] matches WaitEvent::Loaded(Some(_))) by {
            assert(!succeeds(events[i]));
        }
    }
    if events.len() == 47 {
        assert(events.last() == events[46]);
    }
}

/// A wait goes on exactly while nothing has come and attempts are left: the event that brings the
/// lock or a cache ends it, with that, and nothing else but the last failure does.
pub proof fn law_wait_goes_on_until_success<C>(events: Seq<WaitEvent<C>>, event: WaitEvent<C>)
    requires
        is_wait(events.push(event)),
    ensures
        event == WaitEvent::<C>::Locked(true) ==> wait_after(events.push(event))
            == WaitProgress::Finished(LockAcquireResult::<C>::Acquired),
        event matches WaitEvent::Loaded(Some(cache)) ==> wait_after(events.push(event))
            == WaitProgress::Finished(LockAcquireResult::Cache(cache)),
        event == WaitEvent::<C>::Locked(false) ==> wait_after(events.push(event)) is Waiting,
        event is Slept ==> wait_after(events.push(event)) is Waiting,
        event == WaitEvent::<C>::Loaded(None) ==> (wait_after(events.push(event)) is Waiting
            <==> events.len() < 46),
{
    assert(events.push(event).drop_last() =~= events);
    law_wait_is_bounded(events);
}

/// The call that an event answers.
pub open spec fn wait_call<C>(w: LockWait, event: WaitEvent<C>) -> WaitCall<C> {
    match event {
        WaitEvent::Locked(locked) => WaitCall::TryLock(w.attempt, locked),
        WaitEvent::Loaded(cache) => WaitCall::LoadCache(w.attempt, cache),
        WaitEvent::Slept => WaitCall::Sleep(w.attempt),
    }
}

/// The calls that a series of events answers.
pub open spec fn wait_calls<C>(events: Seq<WaitEvent<C>>) -> Seq<WaitCall<C>>
    decreases events.len(),
{
    if events.len() == 0 {
        Seq::empty()
    } else {
        match wait_after(events.drop_last()) {
            WaitProgress::Waiting(w) => wait_calls(events.drop_last()).push(
                wait_call(w, events.last()),
            ),
            WaitProgress::Finished(_) => wait_calls(events.drop_last()),
        }
    }
}

/// The calls of a wait come in rounds, numbered from 0, of a try, a look at the cache and a pause.
/// The answers to the calls are the events.
pub proof fn law_calls_come_in_rounds<C>(events: Seq<WaitEvent<C>>)
    requires
        is_wait(events),
    ensures
        wait_calls(events).len() == events.len(),
        forall|i: int|
            0 <= i < events.len() ==> match #[trigger] wait_calls(events)[i] {
                WaitCall::TryLock(n, locked) => i == 3 * n && events[i] == WaitEvent::<C>::Locked(
                    locked,
                ),
                WaitCall::LoadCache(n, cache) => i == 3 * n + 1 && events[i] == WaitEvent::Loaded(
                    cache,
                ),
                WaitCall::Sleep(n) => i == 3 * n + 2 && events[i] == WaitEvent::<C>::Slept,
            },
    decreases events.len(),
{
    if events.len() > 0 {
        let before = events.drop_last();
        law_calls_come_in_rounds(before);
        law_wait_is_bounded(before);
        assert forall|i: int| 0 <= i < events.len() implies match #[trigger] wait_calls(events)[i] {
            WaitCall::TryLock(n, locked) => i == 3 * n && events[i] == WaitEvent::<C>::Locked(
                locked,
            ),
            WaitCall::LoadCache(n, cache) => i == 3 * n + 1 && events[i] == WaitEvent::Loaded(cache),
            WaitCall::Sleep(n) => i == 3 * n + 2 && events[i] == WaitEvent::<C>::Slept,
        } by {
            if i < before.len() {
                assert(wait_calls(events)[i] == wait_calls(before)[i]);
                assert(events[i] == before[i]);
            }
        }
    }
}

/// Whether the callbacks may answer a call as it records.
pub open spec fn is_wait_answer<
    C,
    F: FnMut(u32) -> bool,
    L: FnMut(u32) -> Option<C>,
    S: FnMut(u32),
>(call: WaitCall<C>, callbacks: WaitCalls<C, F, L, S>) -> bool {
    match call {
        WaitCall::TryLock(n, locked) => call_ensures(callbacks.locker(), (n,), locked),
        WaitCall::LoadCache(n, cache) => call_ensures(callbacks.loader(), (n,), cache),
        WaitCall::Sleep(n) => call_ensures(callbacks.sleeper(), (n,), ()),
    }
}

/// Whether the callbacks may give the answers that a series of events records.
pub open spec fn is_answered_by<
    C,
    F: FnMut(u32) -> bool,
    L: FnMut(u32) -> Option<C>,
    S: FnMut(u32),
>(events: Seq<WaitEvent<C>>, callbacks: WaitCalls<C, F, L, S>) -> bool {
    forall|i: int|
        0 <= i < wait_calls(events).len() ==> is_wait_answer(
            #[trigger] wait_calls(events)[i],
            callbacks,
        )
}

/// Whether the callback that is due may be called.
pub open spec fn may_wait_on<
    C,
    F: FnMut(u32) -> bool,
    L: FnMut(u32) -> Option<C>,
    S: FnMut(u32),
>(progress: WaitProgress<C>, callbacks: WaitCalls<C, F, L, S>) -> bool {
    match progress {
        WaitProgress::Waiting(w) => match w.action {
            WaitAction::TryLock => call_requires(callbacks.locker(), (w.attempt,)),
            WaitAction::LoadCache => call_requires(callbacks.loader(), (w.attempt,)),
            WaitAction::Sleep => call_requires(callbacks.sleeper(), (w.attempt,)),
        },
        WaitProgress::Finished(_) => true,
    }
}

/// Waits for the lock or for a fresh cache.
///
/// Of the callbacks the first says whether the lock was taken, the second gives a fresh cache if
/// there is one, and the third pauses for `LOCK_RETRY_INTERVAL_MS`. The calls that are made are
/// exactly those of a wait, each once and in order; their answers decide how it ends. A callback
/// has to be callable only when it is due.
pub fn wait_for_lock_or_cache<C, F, L, S>(callbacks: &mut WaitCalls<C, F, L, S>) -> (r:
    LockAcquireResult<C>) where
    F: FnMut(u32) -> bool,
    L: FnMut(u32) -> Option<C>,
    S: FnMut(u32),

    requires
        forall|events: Seq<WaitEvent<C>>| #[trigger]
            is_wait(events) && is_answered_by(events, *old(callbacks)) ==> may_wait_on(
                wait_after(events),
                *old(callbacks),
            ),
    ensures
        final(callbacks).same_callbacks(*old(callbacks)),
        exists|events: Seq<WaitEvent<C>>|
            {
                &&& #[trigger] is_wait(events)
                &&& wait_after(events) == WaitProgress::Finished(r)
                &&& is_answered_by(events, *old(callbacks))
                &&& final(callbacks).calls() == old(callbacks).calls() + wait_calls(events)
            },
{
    let mut wait: LockWait = LockWait::start();
    let ghost mut events: Seq<WaitEvent<C>> = Seq::empty();
    loop
        invariant
            forall|events: Seq<WaitEvent<C>>| #[trigger]
                is_wait(events) && is_answered_by(events, *old(callbacks)) ==> may_wait_on(
                    wait_after(events),
                    *old(callbacks),
                ),
            callbacks.same_callbacks(*old(callbacks)),
            callbacks.calls() == old(callbacks).calls() + wait_calls(events),
            wait.wf(),
            is_wait(events),
            wait_after(events) == WaitProgress::<C>::Waiting(wait),
            is_answered_by(events, *old(callbacks)),
        decreases 3 * (LOCK_RETRY_ATTEMPTS + 1) - events.len(),
    {
        assert(may_wait_on(wait_after(events), *old(callbacks)));
        let event: WaitEvent<C> = match wait.action {
            WaitAction::TryLock => WaitEvent::Locked(callbacks.try_lock(wait.attempt)),
            WaitAction::LoadCache => WaitEvent::Loaded(callbacks.load_cache(wait.attempt)),
            WaitAction::Sleep => {
                callbacks.sleep(wait.attempt);
                WaitEvent::Slept
            },
        };
        proof {
            let before = events;
            events = events.push(event);
            assert(events.drop_last() =~= before);
            assert(wait_calls(events) == wait_calls(before).push(wait_call(wait, event)));
            assert forall|i: int| 0 <= i < wait_calls(events).len() implies is_wait_answer(
                #[trigger] wait_calls(events)[i],
                *old(callbacks),
            ) by {
                if i < wait_calls(before).len() {
                    assert(wait_calls(events)[i] == wait_calls(before)[i]);
                }
            }
            law_wait_is_bounded(events);
        }
        match wait.step(event) {
            WaitProgress::Waiting(next) => {
                wait = next;
            },
            WaitProgress::Finished(r) => {
                assert(is_wait(events));
                return r;
            },
        }
    }
}

} // verus!
