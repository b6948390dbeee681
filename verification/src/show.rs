//! Where the displayed data comes from: the cache, the service, or a cache past its time.
//!
//! The rules are a machine that names the next action and takes its outcome; the actions
//! themselves (files, the lock, the network) are performed outside.

use crate::calls::{ShowCall, ShowCalls};
use crate::lock::LockAcquireResult;
use crate::paths::home;
use vstd::prelude::*;

verus! {

/// Why nothing can be displayed.
#[derive(Clone, Copy, Debug, PartialEq, Eq, Structural)]
pub enum ShowError {
    /// There is no token to ask the service with.
    NoToken,
    /// Neither the service nor any cache gave data.
    NoData,
}

impl ShowError {
    /// The message for the user.
    pub open spec fn text(self) -> Seq<char> {
        match self {
            ShowError::NoToken => "no token"@,
            ShowError::NoData => "no data"@,
        }
    }

    /// The message for the user.
    pub fn message(&self) -> (r: String)
        ensures
            r@ == self.text(),
    {
        match self {
            ShowError::NoToken => "no token".to_owned(),
            ShowError::NoData => "no data".to_owned(),
        }
    }
}

/// What has to be done next.
#[derive(Clone, Copy, Debug, PartialEq, Eq, Structural)]
pub enum ShowAction {
    /// Load the cache if it is within its time to live.
    LoadFreshCache,
    /// Under the lock, load the cache once more if it is within its time to live.
    RecheckCache,
    /// Load the cache, however old, after a forced refresh failed.
    LoadAfterRefresh,
    /// Load the cache, however old, because nothing else is left.
    LoadAnyCache,
    /// Read the token from the credentials file.
    ReadToken,
    /// Ask the service.
    Fetch,
    /// Create and open the lock file.
    OpenLock,
    /// Wait for the lock or for a fresh cache.
    WaitForLock,
    /// Write the fetched data to the cache; a failure is only worth a warning.
    SaveCache,
}

/// What came of an action.
pub enum ShowEvent<C> {
    /// The cache that was asked for, if there is one.
    Loaded(Option<C>),
    /// Whether there is a token.
    Token(bool),
    /// What the service gave, or nothing.
    Fetched(Option<C>),
    /// Whether the lock file could be opened.
    LockOpened(bool),
    /// How waiting for the lock ended.
    Waited(LockAcquireResult<C>),
    /// The data was written, or a warning was given.
    Saved,
}

/// Where the machine stands.
pub enum ShowState<C> {
    /// A fresh cache is looked for.
    CheckCache,
    /// The token is needed; `forced` if the cache was not to be used.
    NeedToken { forced: bool },
    /// A forced refresh asks the service.
    Refresh,
    /// A forced refresh failed, and falls back on the cache.
    RefreshFailed,
    /// The lock file is opened.
    OpenLock,
    /// The lock is waited for.
    WaitLock,
    /// The lock is held, and the cache is looked at once more.
    Recheck,
    /// The lock is held, and the service is asked.
    LockedFetch,
    /// The fetched data is written to the cache.
    Save(C),
    /// Nothing else worked: any cache will do.
    LastResort,
    /// The data to display, or why there is none.
    Done(Result<C, ShowError>),
}

/// Whether an event is an answer to an action.
pub open spec fn answers<C>(action: ShowAction, event: ShowEvent<C>) -> bool {
    match event {
        ShowEvent::Loaded(_) => {
            ||| action == ShowAction::LoadFreshCache
            ||| action == ShowAction::RecheckCache
            ||| action == ShowAction::LoadAfterRefresh
            ||| action == ShowAction::LoadAnyCache
        },
        ShowEvent::Token(_) => action == ShowAction::ReadToken,
        ShowEvent::Fetched(_) => action == ShowAction::Fetch,
        ShowEvent::LockOpened(_) => action == ShowAction::OpenLock,
        ShowEvent::Waited(_) => action == ShowAction::WaitForLock,
        ShowEvent::Saved => action == ShowAction::SaveCache,
    }
}

impl<C> ShowState<C> {
    /// The first state: a forced refresh does not look at the cache.
    pub open spec fn initial(force_refresh: bool) -> ShowState<C> {
        if force_refresh {
            ShowState::NeedToken { forced: true }
        } else {
            ShowState::CheckCache
        }
    }

    /// The action that is due, if the machine has not stopped.
    pub open spec fn due(self) -> Option<ShowAction> {
        match self {
            ShowState::CheckCache => Some(ShowAction::LoadFreshCache),
            ShowState::Recheck => Some(ShowAction::RecheckCache),
            ShowState::NeedToken { .. } => Some(ShowAction::ReadToken),
            ShowState::Refresh | ShowState::LockedFetch => Some(ShowAction::Fetch),
            ShowState::RefreshFailed => Some(ShowAction::LoadAfterRefresh),
            ShowState::LastResort => Some(ShowAction::LoadAnyCache),
            ShowState::OpenLock => Some(ShowAction::OpenLock),
            ShowState::WaitLock => Some(ShowAction::WaitForLock),
            ShowState::Save(_) => Some(ShowAction::SaveCache),
            ShowState::Done(_) => None,
        }
    }

    /// Whether an event answers the action that is due.
    pub open spec fn accepts(self, event: ShowEvent<C>) -> bool {
        self.due() matches Some(action) && answers(action, event)
    }

    /// Where an answer leads.
    pub open spec fn advanced(self, event: ShowEvent<C>) -> ShowState<C> {
        match event {
            ShowEvent::Loaded(Some(cache)) => ShowState::Done(Ok(cache)),
            ShowEvent::Loaded(None) => match self {
                ShowState::CheckCache => ShowState::NeedToken { forced: false },
                ShowState::Recheck => ShowState::LockedFetch,
                ShowState::RefreshFailed => ShowState::LastResort,
                _ => ShowState::Done(Err(ShowError::NoData)),
            },
            ShowEvent::Token(false) => ShowState::Done(Err(ShowError::NoToken)),
            ShowEvent::Token(true) => if self == (ShowState::<C>::NeedToken { forced: true }) {
                ShowState::Refresh
            } else {
                ShowState::OpenLock
            },
            ShowEvent::Fetched(Some(data)) => ShowState::Save(data),
            ShowEvent::Fetched(None) => if self is Refresh {
                ShowState::RefreshFailed
            } else {
                ShowState::LastResort
            },
            ShowEvent::LockOpened(true) => ShowState::WaitLock,
            ShowEvent::LockOpened(false) => ShowState::LastResort,
            ShowEvent::Waited(LockAcquireResult::Acquired) => ShowState::Recheck,
            ShowEvent::Waited(LockAcquireResult::Cache(cache)) => ShowState::Done(Ok(cache)),
            ShowEvent::Waited(LockAcquireResult::TimedOut) => ShowState::LastResort,
            ShowEvent::Saved => match self {
                ShowState::Save(data) => ShowState::Done(Ok(data)),
                _ => self,
            },
        }
    }

    /// How many answers the machine can still take.
    pub open spec fn rank(self) -> nat {
        match self {
            ShowState::CheckCache => 7,
            ShowState::NeedToken { .. } => 6,
            ShowState::OpenLock => 5,
            ShowState::WaitLock => 4,
            ShowState::Recheck | ShowState::Refresh => 3,
            ShowState::LockedFetch | ShowState::RefreshFailed => 2,
            ShowState::Save(_) | ShowState::LastResort => 1,
            ShowState::Done(_) => 0,
        }
    }

    /// Begins to look for data.
    pub fn start(force_refresh: bool) -> (s: ShowState<C>)
        ensures
            s == ShowState::<C>::initial(force_refresh),
    {
        if force_refresh {
            ShowState::NeedToken { forced: true }
        } else {
            ShowState::CheckCache
        }
    }

    /// The action that is due, if the machine has not stopped.
    pub fn action(&self) -> (a: Option<ShowAction>)
        ensures
            a == self.due(),
    {
        match self {
            ShowState::CheckCache => Some(ShowAction::LoadFreshCache),
            ShowState::Recheck => Some(ShowAction::RecheckCache),
            ShowState::NeedToken { .. } => Some(ShowAction::ReadToken),
            ShowState::Refresh | ShowState::LockedFetch => Some(ShowAction::Fetch),
            ShowState::RefreshFailed => Some(ShowAction::LoadAfterRefresh),
            ShowState::LastResort => Some(ShowAction::LoadAnyCache),
            ShowState::OpenLock => Some(ShowAction::OpenLock),
            ShowState::WaitLock => Some(ShowAction::WaitForLock),
            ShowState::Save(_) => Some(ShowAction::SaveCache),
            ShowState::Done(_) => None,
        }
    }

    /// Takes the answer to the action that was due.
    pub fn step(self, event: ShowEvent<C>) -> (s: ShowState<C>)
        requires
            self.accepts(event),
        ensures
            s == self.advanced(event),
            s.rank() < self.rank(),
    {
        match (self, event) {
            (_, ShowEvent::Loaded(Some(cache))) => ShowState::Done(Ok(cache)),
            (ShowState::CheckCache, ShowEvent::Loaded(None)) => ShowState::NeedToken {
                forced: false,
            },
            (ShowState::Recheck, ShowEvent::Loaded(None)) => ShowState::LockedFetch,
            (ShowState::RefreshFailed, ShowEvent::Loaded(None)) => ShowState::LastResort,
            (_, ShowEvent::Loaded(None)) => ShowState::Done(Err(ShowError::NoData)),
            (ShowState::NeedToken { forced }, ShowEvent::Token(found)) => if !found {
                ShowState::Done(Err(ShowError::NoToken))
            } else if forced {
                ShowState::Refresh
            } else {
                ShowState::OpenLock
            },
            (_, ShowEvent::Fetched(Some(data))) => ShowState::Save(data),
            (ShowState::Refresh, ShowEvent::Fetched(None)) => ShowState::RefreshFailed,
            (_, ShowEvent::Fetched(None)) => ShowState::LastResort,
            (_, ShowEvent::LockOpened(opened)) => if opened {
                ShowState::WaitLock
            } else {
                ShowState::LastResort
            },
            (_, ShowEvent::Waited(LockAcquireResult::Acquired)) => ShowState::Recheck,
            (_, ShowEvent::Waited(LockAcquireResult::Cache(cache))) => ShowState::Done(Ok(cache)),
            (_, ShowEvent::Waited(LockAcquireResult::TimedOut)) => ShowState::LastResort,
            (ShowState::Save(data), _) => ShowState::Done(Ok(data)),
            (other, _) => other,
        }
    }
}

/// Where the machine stands after a series of events.
pub open spec fn show_after<C>(force_refresh: bool, events: Seq<ShowEvent<C>>) -> ShowState<C>
    decreases events.len(),
{
    if events.len() == 0 {
        ShowState::initial(force_refresh)
    } else {
        show_after(force_refresh, events.drop_last()).advanced(events.last())
    }
}

/// Whether each event answers the action that was due when it came.
pub open spec fn is_show<C>(force_refresh: bool, events: Seq<ShowEvent<C>>) -> bool
    decreases events.len(),
{
    events.len() == 0 || {
        &&& is_show(force_refresh, events.drop_last())
        &&& show_after(force_refresh, events.drop_last()).accepts(events.last())
    }
}

/// The call that an event answers: the data that is due is saved, and any other action is
/// performed.
pub open spec fn show_call<C>(state: ShowState<C>, event: ShowEvent<C>) -> ShowCall<C> {
    match state {
        ShowState::Save(data) => ShowCall::Save(data),
        _ => ShowCall::Perform(state.due()->0, event),
    }
}

/// The calls that a series of events answers.
pub open spec fn show_calls<C>(force_refresh: bool, events: Seq<ShowEvent<C>>) -> Seq<ShowCall<C>>
    decreases events.len(),
{
    if events.len() == 0 {
        Seq::empty()
    } else {
        show_calls(force_refresh, events.drop_last()).push(
            show_call(show_after(force_refresh, events.drop_last()), events.last()),
        )
    }
}

/// There is one call for each event, the one that was due: the service is asked, and data is
/// saved, exactly where the events say so.
pub proof fn law_calls_are_the_events<C>(force_refresh: bool, events: Seq<ShowEvent<C>>)
    requires
        is_show(force_refresh, events),
    ensures
        show_calls(force_refresh, events).len() == events.len(),
        forall|i: int|
            0 <= i < events.len() ==> {
                let call = #[trigger] show_calls(force_refresh, events)[i];
                &&& call == show_call(show_after(force_refresh, events.take(i)), events[i])
                &&& match call {
                    ShowCall::Perform(action, event) => {
                        &&& event == events[i]
                        &&& answers(action, event)
                        &&& !(event is Saved)
                    },
                    ShowCall::Save(_) => events[i] is Saved,
                }
            },
    decreases events.len(),
{
    if events.len() > 0 {
        let before = events.drop_last();
        law_calls_are_the_events(force_refresh, before);
        let calls = show_calls(force_refresh, events);
        assert forall|i: int| 0 <= i < events.len() implies {
            &&& #[trigger] calls[i] == show_call(
                show_after(force_refresh, events.take(i)),
                events[i],
            )
            &&& match calls[i] {
                ShowCall::Perform(action, event) => {
                    &&& event == events[i]
                    &&& answers(action, event)
                    &&& !(event is Saved)
                },
                ShowCall::Save(_) => events[i] is Saved,
            }
        } by {
            if i < before.len() {
                assert(calls[i] == show_calls(force_refresh, before)[i]);
                assert(events[i] == before[i]);
                assert(events.take(i) =~= before.take(i));
            } else {
                assert(events.take(i) =~= before);
            }
        }
    }
}

/// Whether an event brings the data `data`.
pub open spec fn brings<C>(event: ShowEvent<C>, data: C) -> bool {
    ||| event == ShowEvent::Loaded(Some(data))
    ||| event == ShowEvent::Fetched(Some(data))
    ||| event == ShowEvent::Waited(LockAcquireResult::Cache(data))
}

/// Whether an event brings any data.
pub open spec fn brings_data<C>(event: ShowEvent<C>) -> bool {
    match event {
        ShowEvent::Loaded(data) => data is Some,
        ShowEvent::Fetched(data) => data is Some,
        ShowEvent::Waited(r) => r is Cache,
        _ => false,
    }
}

/// The events up to the point where the lock file is opened.
pub open spec fn before_lock<C>() -> Seq<ShowEvent<C>> {
    seq![ShowEvent::Loaded(None), ShowEvent::Token(true)]
}

/// The events up to the point where the lock is waited for.
pub open spec fn before_wait<C>() -> Seq<ShowEvent<C>> {
    before_lock::<C>().push(ShowEvent::LockOpened(true))
}

/// The events up to the point where the service is asked under the lock.
pub open spec fn before_locked_fetch<C>() -> Seq<ShowEvent<C>> {
    before_wait::<C>().push(ShowEvent::Waited(LockAcquireResult::Acquired)).push(
        ShowEvent::Loaded(None),
    )
}

/// The events up to the point where a forced refresh asks the service.
pub open spec fn before_refresh<C>() -> Seq<ShowEvent<C>> {
    seq![ShowEvent::Token(true)]
}

/// The events up to the point where the service is asked.
pub open spec fn before_fetch<C>(force_refresh: bool) -> Seq<ShowEvent<C>> {
    if force_refresh {
        before_refresh()
    } else {
        before_locked_fetch()
    }
}

/// The state fixes what has happened before it.
pub proof fn law_state_tells_history<C>(force_refresh: bool, events: Seq<ShowEvent<C>>)
    requires
        is_show(force_refresh, events),
    ensures
        match show_after(force_refresh, events) {
            ShowState::CheckCache => !force_refresh && events.len() == 0,
            ShowState::NeedToken { forced } => {
                &&& forced == force_refresh
                &&& events == if forced {
                    Seq::<ShowEvent<C>>::empty()
                } else {
                    seq![ShowEvent::Loaded(None)]
                }
            },
            ShowState::Refresh => force_refresh && events == before_refresh::<C>(),
            ShowState::RefreshFailed => force_refresh && events == before_refresh::<C>().push(
                ShowEvent::Fetched(None),
            ),
            ShowState::OpenLock => !force_refresh && events == before_lock::<C>(),
            ShowState::WaitLock => !force_refresh && events == before_wait::<C>(),
            ShowState::Recheck => !force_refresh && events == before_wait::<C>().push(
                ShowEvent::Waited(LockAcquireResult::Acquired),
            ),
            ShowState::LockedFetch => !force_refresh && events == before_locked_fetch::<C>(),
            ShowState::Save(data) => events == before_fetch::<C>(force_refresh).push(
                ShowEvent::Fetched(Some(data)),
            ),
            ShowState::LastResort => if force_refresh {
                events == before_refresh::<C>().push(ShowEvent::Fetched(None)).push(
                    ShowEvent::Loaded(None),
                )
            } else {
                ||| events == before_lock::<C>().push(ShowEvent::LockOpened(false))
                ||| events == before_wait::<C>().push(
                    ShowEvent::Waited(LockAcquireResult::TimedOut),
                )
                ||| events == before_locked_fetch::<C>().push(ShowEvent::Fetched(None))
            },
            ShowState::Done(_) => events.len() > 0,
        },
    decreases events.len(),
{
    if events.len() > 0 {
        let before = events.drop_last();
        law_state_tells_history(force_refresh, before);
        assert(events =~= before.push(events.last()));
    }
}

/// The machine stops after at most seven answers.
pub proof fn law_show_terminates<C>(force_refresh: bool, events: Seq<ShowEvent<C>>)
    requires
        is_show(force_refresh, events),
    ensures
        events.len() + show_after(force_refresh, events).rank() <= 7,
    decreases events.len(),
{
    if events.len() > 0 {
        law_show_terminates(force_refresh, events.drop_last());
    }
}

/// A cache within its time to live is displayed at once: looking for it is the only call that is
/// made.
pub proof fn law_fresh_cache_needs_no_request<C>(events: Seq<ShowEvent<C>>, cache: C)
    requires
        is_show(false, events),
        events.len() > 0,
        events[0] == ShowEvent::Loaded(Some(cache)),
    ensures
        show_calls(false, events) == seq![
            ShowCall::Perform(ShowAction::LoadFreshCache, ShowEvent::Loaded(Some(cache))),
        ],
        show_after(false, events) == ShowState::Done(Ok::<C, ShowError>(cache)),
    decreases events.len(),
{
    if events.len() > 1 {
        law_fresh_cache_needs_no_request(events.drop_last(), cache);
    } else {
        reveal_with_fuel(show_calls, 2);
        assert(events.drop_last() =~= Seq::<ShowEvent<C>>::empty());
        assert(show_calls(false, events) =~= seq![
            ShowCall::Perform(ShowAction::LoadFreshCache, ShowEvent::Loaded(Some(cache))),
        ]);
    }
}

/// A missing token is reported without asking the service and without writing anything: the only
/// other call was a look for a fresh cache, unless a refresh was forced.
pub proof fn law_missing_token_needs_no_request<C>(force_refresh: bool, events: Seq<ShowEvent<C>>)
    requires
        is_show(force_refresh, events),
        show_after(force_refresh, events) == ShowState::Done(
            Err::<C, ShowError>(ShowError::NoToken),
        ),
    ensures
        ({
            let asked = ShowCall::Perform(ShowAction::ReadToken, ShowEvent::<C>::Token(false));
            show_calls(force_refresh, events) == if force_refresh {
                seq![asked]
            } else {
                seq![ShowCall::Perform(ShowAction::LoadFreshCache, ShowEvent::Loaded(None)), asked]
            }
        }),
{
    reveal_with_fuel(show_calls, 3);
    let before = events.drop_last();
    law_data_is_displayed(force_refresh, events);
    law_state_tells_history(force_refresh, before);
    let asked = ShowCall::Perform(ShowAction::ReadToken, ShowEvent::<C>::Token(false));
    if force_refresh {
        assert(show_calls(force_refresh, events) =~= seq![asked]);
    } else {
        let looked = ShowCall::Perform(ShowAction::LoadFreshCache, ShowEvent::<C>::Loaded(None));
        assert(before.drop_last() =~= Seq::<ShowEvent<C>>::empty());
        assert(show_calls(force_refresh, events) =~= seq![looked, asked]);
    }
}

/// What is done, in which order, unless a refresh is forced: the cache is looked at, the token is
/// read, the lock is opened and waited for, the cache is looked at again, and then the service is
/// asked. Whatever fails on the way from the lock on leads to any cache as the last resort.
pub proof fn law_order_of_actions<C>(events: Seq<ShowEvent<C>>)
    requires
        is_show(false, events),
    ensures
        ({
            let state = show_after(false, events);
            let none = ShowEvent::<C>::Loaded(None);
            let token = ShowEvent::<C>::Token(true);
            let opened = ShowEvent::<C>::LockOpened(true);
            let held = ShowEvent::<C>::Waited(LockAcquireResult::Acquired);
            &&& events == Seq::<ShowEvent<C>>::empty() ==> state.due() == Some(
                ShowAction::LoadFreshCache,
            )
            &&& events == seq![none] ==> state.due() == Some(ShowAction::ReadToken)
            &&& events == seq![none, token] ==> state.due() == Some(ShowAction::OpenLock)
            &&& events == seq![none, token, opened] ==> state.due() == Some(ShowAction::WaitForLock)
            &&& events == seq![none, token, opened, held] ==> state.due() == Some(
                ShowAction::RecheckCache,
            )
            &&& events == seq![none, token, opened, held, none] ==> state.due() == Some(
                ShowAction::Fetch,
            )
            &&& events == seq![none, token, ShowEvent::<C>::LockOpened(false)] ==> state.due()
                == Some(ShowAction::LoadAnyCache)
            &&& events == seq![
                none,
                token,
                opened,
                ShowEvent::<C>::Waited(LockAcquireResult::TimedOut),
            ] ==> state.due() == Some(ShowAction::LoadAnyCache)
            &&& events == seq![none, token, opened, held, none, ShowEvent::<C>::Fetched(None)]
                ==> state.due() == Some(ShowAction::LoadAnyCache)
        }),
{
    let none = ShowEvent::<C>::Loaded(None);
    let token = ShowEvent::<C>::Token(true);
    let opened = ShowEvent::<C>::LockOpened(true);
    let held = ShowEvent::<C>::Waited(LockAcquireResult::Acquired);
    let s1 = seq![none];
    let s2 = seq![none, token];
    let s3 = seq![none, token, opened];
    let s4 = seq![none, token, opened, held];
    let s5 = seq![none, token, opened, held, none];
    let closed = seq![none, token, ShowEvent::<C>::LockOpened(false)];
    let late = seq![none, token, opened, ShowEvent::<C>::Waited(LockAcquireResult::TimedOut)];
    let failed = seq![none, token, opened, held, none, ShowEvent::<C>::Fetched(None)];
    assert(s1.drop_last() =~= Seq::<ShowEvent<C>>::empty());
    assert(s2.drop_last() =~= s1);
    assert(s3.drop_last() =~= s2);
    assert(s4.drop_last() =~= s3);
    assert(s5.drop_last() =~= s4);
    assert(closed.drop_last() =~= s2);
    assert(late.drop_last() =~= s3);
    assert(failed.drop_last() =~= s5);
    assert(show_after(false, Seq::<ShowEvent<C>>::empty()) is CheckCache);
    assert(show_after(false, s1) is NeedToken);
    assert(show_after(false, s2) is OpenLock);
    assert(show_after(false, s3) is WaitLock);
    assert(show_after(false, s4) is Recheck);
    assert(show_after(false, s5) is LockedFetch);
    assert(show_after(false, closed) is LastResort);
    assert(show_after(false, late) is LastResort);
    assert(show_after(false, failed) is LastResort);
}

/// What is done, in which order, for a forced refresh: the token is read and the service asked,
/// without a look at the cache or the lock. A failure falls back on any cache, twice.
pub proof fn law_order_of_forced_actions<C>(events: Seq<ShowEvent<C>>)
    requires
        is_show(true, events),
    ensures
        ({
            let state = show_after(true, events);
            let token = ShowEvent::<C>::Token(true);
            let failed = ShowEvent::<C>::Fetched(None);
            &&& events == Seq::<ShowEvent<C>>::empty() ==> state.due() == Some(ShowAction::ReadToken)
            &&& events == seq![token] ==> state.due() == Some(ShowAction::Fetch)
            &&& events == seq![token, failed] ==> state.due() == Some(ShowAction::LoadAfterRefresh)
            &&& events == seq![token, failed, ShowEvent::<C>::Loaded(None)] ==> state.due() == Some(
                ShowAction::LoadAnyCache,
            )
        }),
{
    let token = ShowEvent::<C>::Token(true);
    let failed = ShowEvent::<C>::Fetched(None);
    let s1 = seq![token];
    let s2 = seq![token, failed];
    let s3 = seq![token, failed, ShowEvent::<C>::Loaded(None)];
    assert(s1.drop_last() =~= Seq::<ShowEvent<C>>::empty());
    assert(s2.drop_last() =~= s1);
    assert(s3.drop_last() =~= s2);
    assert(show_after(true, Seq::<ShowEvent<C>>::empty()) is NeedToken);
    assert(show_after(true, s1) is Refresh);
    assert(show_after(true, s2) is RefreshFailed);
    assert(show_after(true, s3) is LastResort);
}

/// The machine stops on data that was loaded, found while waiting, or fetched and saved; on a
/// missing token; and when the last resort finds no cache. On everything else it goes on.
pub proof fn law_when_the_machine_stops<C>(
    force_refresh: bool,
    events: Seq<ShowEvent<C>>,
    event: ShowEvent<C>,
)
    requires
        is_show(force_refresh, events.push(event)),
    ensures
        ({
            let next = show_after(force_refresh, events.push(event));
            let due = show_after(force_refresh, events).due();
            &&& event matches ShowEvent::Loaded(Some(data)) ==> next == ShowState::Done(
                Ok::<C, ShowError>(data),
            )
            &&& event matches ShowEvent::Waited(LockAcquireResult::Cache(data)) ==> next
                == ShowState::Done(Ok::<C, ShowError>(data))
            &&& event matches ShowEvent::Fetched(Some(data)) ==> next == ShowState::Save(data)
                && next.due() == Some(ShowAction::SaveCache)
            &&& event is Saved ==> (next matches ShowState::Done(Ok(data)) && show_after(
                force_refresh,
                events,
            ) == ShowState::Save(data))
            &&& event == ShowEvent::<C>::Token(false) ==> next == ShowState::Done(
                Err::<C, ShowError>(ShowError::NoToken),
            )
            &&& next == ShowState::Done(Err::<C, ShowError>(ShowError::NoData)) <==> event
                == ShowEvent::<C>::Loaded(None) && due == Some(ShowAction::LoadAnyCache)
            &&& next is Done <==> {
                ||| event matches ShowEvent::Loaded(Some(_))
                ||| event matches ShowEvent::Waited(LockAcquireResult::Cache(_))
                ||| event is Saved
                ||| event == ShowEvent::<C>::Token(false)
                ||| event == ShowEvent::<C>::Loaded(None) && due == Some(ShowAction::LoadAnyCache)
            }
            &&& next.due() is None <==> next is Done
        }),
{
    assert(events.push(event).drop_last() =~= events);
}

/// No action is due twice.
pub proof fn law_no_action_is_due_twice<C>(
    force_refresh: bool,
    events: Seq<ShowEvent<C>>,
    i: int,
    j: int,
)
    requires
        is_show(force_refresh, events),
        0 <= i < j <= events.len(),
        show_after(force_refresh, events.take(j)).due() is Some,
    ensures
        show_after(force_refresh, events.take(i)).due() != show_after(
            force_refresh,
            events.take(j),
        ).due(),
    decreases events.len(),
{
    let earlier = events.take(i);
    let later = events.take(j);
    lemma_prefix(force_refresh, events, i);
    lemma_prefix(force_refresh, events, j);
    lemma_rank_falls(force_refresh, later, i);
    assert(later.take(i) =~= earlier);
    law_state_tells_history(force_refresh, earlier);
    law_state_tells_history(force_refresh, later);
}

/// What comes first in a series of answers is such a series.
proof fn lemma_prefix<C>(force_refresh: bool, events: Seq<ShowEvent<C>>, i: int)
    requires
        is_show(force_refresh, events),
        0 <= i <= events.len(),
    ensures
        is_show(force_refresh, events.take(i)),
    decreases events.len(),
{
    if i < events.len() {
        lemma_prefix(force_refresh, events.drop_last(), i);
        assert(events.drop_last().take(i) =~= events.take(i));
    } else {
        assert(events.take(i) =~= events);
    }
}

/// Every answer brings the end nearer.
proof fn lemma_rank_falls<C>(force_refresh: bool, events: Seq<ShowEvent<C>>, i: int)
    requires
        is_show(force_refresh, events),
        0 <= i < events.len(),
    ensures
        show_after(force_refresh, events).rank() < show_after(force_refresh, events.take(i)).rank(),
    decreases events.len(),
{
    let before = events.drop_last();
    if i < before.len() {
        lemma_rank_falls(force_refresh, before, i);
        assert(before.take(i) =~= events.take(i));
    } else {
        assert(before =~= events.take(i));
    }
}

/// The service is asked only with a token at hand, at most once, and, unless a refresh was
/// forced, only while the lock is held and after the cache was found not fresh under it.
pub proof fn law_request_is_guarded<C>(force_refresh: bool, events: Seq<ShowEvent<C>>, i: int)
    requires
        is_show(force_refresh, events),
        0 <= i < events.len(),
        events[i] is Fetched,
    ensures
        events.take(i) == before_fetch::<C>(force_refresh),
        forall|j: int| 0 <= j < events.len() && j != i ==> !(#[trigger] events[j] is Fetched),
    decreases events.len(),
{
    let before = events.drop_last();
    law_state_tells_history(force_refresh, before);
    law_state_tells_history(force_refresh, events);
    if i < before.len() {
        law_request_is_guarded(force_refresh, before, i);
        assert(events.take(i) =~= before.take(i));
        assert forall|j: int| 0 <= j < events.len() && j != i implies !(#[trigger] events[j] is Fetched) by {
            if j < before.len() {
                assert(events[j] == before[j]);
            }
        }
    } else {
        assert(events.take(i) =~= before);
        assert forall|j: int| 0 <= j < events.len() && j != i implies !(#[trigger] events[j] is Fetched) by {
            assert(events[j] == before[j]);
        }
    }
}

/// What is displayed was brought by some event, and data that the service gave is written to the
/// cache before it is displayed.
pub proof fn law_displayed_data_was_brought<C>(
    force_refresh: bool,
    events: Seq<ShowEvent<C>>,
    data: C,
)
    requires
        is_show(force_refresh, events),
        show_after(force_refresh, events) == ShowState::Done(Ok::<C, ShowError>(data)),
    ensures
        events.len() > 0,
        if events.last() is Saved {
            events == before_fetch::<C>(force_refresh).push(ShowEvent::Fetched(Some(data))).push(
                ShowEvent::Saved,
            )
        } else {
            brings(events.last(), data) && !(events.last() is Fetched)
        },
{
    law_state_tells_history(force_refresh, events);
    let before = events.drop_last();
    law_state_tells_history(force_refresh, before);
    assert(events =~= before.push(events.last()));
}

/// As soon as an event brings data, that data is displayed; the machine gives up only when none
/// came.
pub proof fn law_data_is_displayed<C>(force_refresh: bool, events: Seq<ShowEvent<C>>)
    requires
        is_show(force_refresh, events),
    ensures
        match show_after(force_refresh, events) {
            ShowState::Done(Ok(_)) | ShowState::Save(_) => true,
            _ => forall|i: int| 0 <= i < events.len() ==> !brings_data(#[trigger] events[i]),
        },
        show_after(force_refresh, events) == ShowState::Done(Err::<C, ShowError>(ShowError::NoToken))
            <==> events.len() > 0 && events.last() == ShowEvent::<C>::Token(false),
    decreases events.len(),
{
    if events.len() > 0 {
        let before = events.drop_last();
        law_data_is_displayed(force_refresh, before);
        if !(show_after(force_refresh, events) matches ShowState::Done(Ok(_)))
            && !(show_after(force_refresh, events) is Save) {
            assert forall|i: int| 0 <= i < events.len() implies !brings_data(
                #[trigger] events[i],
            ) by {
                if i < before.len() {
                    assert(events[i] == before[i]);
                }
            }
        }
    }
}

/// Whether the callbacks may answer a call as it records.
pub open spec fn is_show_answer<C, P: FnMut(ShowAction) -> ShowEvent<C>, S: FnMut(&C)>(
    call: ShowCall<C>,
    callbacks: ShowCalls<C, P, S>,
) -> bool {
    match call {
        ShowCall::Perform(action, event) => call_ensures(callbacks.performer(), (action,), event),
        ShowCall::Save(data) => call_ensures(callbacks.saver(), (&data,), ()),
    }
}

/// Whether the callbacks may give the answers that a series of events records.
pub open spec fn is_performed_by<C, P: FnMut(ShowAction) -> ShowEvent<C>, S: FnMut(&C)>(
    force_refresh: bool,
    events: Seq<ShowEvent<C>>,
    callbacks: ShowCalls<C, P, S>,
) -> bool {
    forall|i: int|
        0 <= i < events.len() ==> is_show_answer(
            #[trigger] show_calls(force_refresh, events)[i],
            callbacks,
        )
}

/// Whether the callback that is due may be called.
pub open spec fn may_go_on<C, P: FnMut(ShowAction) -> ShowEvent<C>, S: FnMut(&C)>(
    state: ShowState<C>,
    callbacks: ShowCalls<C, P, S>,
) -> bool {
    match state {
        ShowState::Save(data) => call_requires(callbacks.saver(), (&data,)),
        _ => state.due() matches Some(action) ==> call_requires(callbacks.performer(), (action,)),
    }
}

/// Finds the data to display.
///
/// Of the callbacks the first carries out an action and says what came of it, and the second
/// writes fetched data to the cache. Without a home directory none is called. Otherwise the calls
/// that are made are exactly those of the machine, each once and in order; the outcome is where
/// the machine stops on their answers. A callback has to be callable only when it is due.
pub fn run_show<C, P, S>(
    home_var: Option<Vec<u8>>,
    force_refresh: bool,
    callbacks: &mut ShowCalls<C, P, S>,
) -> (r: Result<C, String>) where P: FnMut(ShowAction) -> ShowEvent<C>, S: FnMut(&C)
    requires
        forall|events: Seq<ShowEvent<C>>| #[trigger]
            is_show(force_refresh, events) && is_performed_by(
                force_refresh,
                events,
                *old(callbacks),
            ) ==> may_go_on(show_after(force_refresh, events), *old(callbacks)),
        forall|action: ShowAction, event: ShowEvent<C>| #[trigger]
            call_ensures(old(callbacks).performer(), (action,), event) ==> answers(action, event),
    ensures
        final(callbacks).same_callbacks(*old(callbacks)),
        match crate::paths::home_dir(home_var) {
            None => {
                &&& r matches Err(e) && e@ == "HOME is not set"@
                &&& final(callbacks).calls() == old(callbacks).calls()
            },
            Some(_) => exists|events: Seq<ShowEvent<C>>|
                {
                    &&& #[trigger] is_show(force_refresh, events)
                    &&& is_performed_by(force_refresh, events, *old(callbacks))
                    &&& final(callbacks).calls() == old(callbacks).calls() + show_calls(
                        force_refresh,
                        events,
                    )
                    &&& match show_after(force_refresh, events) {
                        ShowState::Done(Ok(data)) => r == Ok::<C, String>(data),
                        ShowState::Done(Err(why)) => r matches Err(e) && e@ == why.text(),
                        _ => false,
                    }
                },
        },
{
    match home(home_var) {
        Ok(_) => {},
        Err(e) => {
            return Err(e);
        },
    }
    let mut state: ShowState<C> = ShowState::start(force_refresh);
    let ghost mut events: Seq<ShowEvent<C>> = Seq::empty();
    loop
        invariant
            forall|events: Seq<ShowEvent<C>>| #[trigger]
                is_show(force_refresh, events) && is_performed_by(
                    force_refresh,
                    events,
                    *old(callbacks),
                ) ==> may_go_on(show_after(force_refresh, events), *old(callbacks)),
            forall|action: ShowAction, event: ShowEvent<C>| #[trigger]
                call_ensures(old(callbacks).performer(), (action,), event) ==> answers(
                    action,
                    event,
                ),
            crate::paths::home_dir(home_var) is Some,
            callbacks.same_callbacks(*old(callbacks)),
            callbacks.calls() == old(callbacks).calls() + show_calls(force_refresh, events),
            is_show(force_refresh, events),
            is_performed_by(force_refresh, events, *old(callbacks)),
            state == show_after(force_refresh, events),
        decreases state.rank(),
    {
        assert(may_go_on(show_after(force_refresh, events), *old(callbacks)));
        if let ShowState::Save(data) = &state {
            callbacks.save(data);
        }
        let event: ShowEvent<C> = match state.action() {
            Some(ShowAction::SaveCache) => ShowEvent::Saved,
            Some(action) => callbacks.perform(action),
            None => {
                assert(is_show(force_refresh, events));
                match state {
                    ShowState::Done(Ok(data)) => {
                        return Ok(data);
                    },
                    ShowState::Done(Err(why)) => {
                        return Err(why.message());
                    },
                    _ => {
                        assert(false);
                        return Err(String::new());
                    },
                }
            },
        };
        proof {
            let before = events;
            events = events.push(event);
            assert(events.drop_last() =~= before);
            law_calls_are_the_events(force_refresh, before);
            assert forall|i: int| 0 <= i < events.len() implies is_show_answer(
                #[trigger] show_calls(force_refresh, events)[i],
                *old(callbacks),
            ) by {
                if i < before.len() {
                    assert(show_calls(force_refresh, events)[i] == show_calls(
                        force_refresh,
                        before,
                    )[i]);
                }
            }
        }
        state = state.step(event);
    }
}

} // verus!
