use rate_limit::cache::Cache;
use rate_limit::calls::{ShowCalls, WaitCalls};
use rate_limit::lock::{
    wait_for_lock_or_cache, LockAcquireResult, LockWait, WaitAction, WaitEvent, WaitProgress,
    LOCK_RETRY_ATTEMPTS, LOCK_RETRY_INTERVAL_MS,
};
use rate_limit::paths::{cache_path, claude_config_path, credentials_path, home, lock_path};
use rate_limit::product::Product;
use rate_limit::show::{run_show, ShowAction, ShowError, ShowEvent, ShowState};
use std::cell::{Cell, RefCell};

#[test]
fn wait_for_lock_or_cache_returns_cache_after_retry() {
    let expected = Cache {
        fetched_at: 1000.0,
        util_5h: 0.23,
        util_1w: 0.6,
        reset_5h: 2000,
        reset_1w: 3000,
    };
    let try_count = Cell::new(0usize);
    let sleep_count = Cell::new(0usize);

    let result = wait_for_lock_or_cache(&mut WaitCalls::new(
        |_| {
            try_count.set(try_count.get() + 1);
            false
        },
        |_| {
            if try_count.get() >= 3 {
                Some(expected.clone())
            } else {
                None
            }
        },
        |_| {
            sleep_count.set(sleep_count.get() + 1);
        },
    ));

    match result {
        LockAcquireResult::Cache(cache) => assert_eq!(cache, expected),
        _ => panic!("expected cache result"),
    }
    assert_eq!(try_count.get(), 3);
    assert_eq!(sleep_count.get(), 2);
}

#[test]
fn wait_for_lock_or_cache_times_out_after_configured_retries() {
    let try_count = Cell::new(0usize);
    let sleep_count = Cell::new(0usize);

    let result: LockAcquireResult<Cache<f64>> = wait_for_lock_or_cache(&mut WaitCalls::new(
        |_| {
            try_count.set(try_count.get() + 1);
            false
        },
        |_| None,
        |_| {
            sleep_count.set(sleep_count.get() + 1);
        },
    ));

    assert!(matches!(result, LockAcquireResult::TimedOut));
    assert_eq!(try_count.get(), (LOCK_RETRY_ATTEMPTS + 1) as usize);
    assert_eq!(sleep_count.get(), LOCK_RETRY_ATTEMPTS as usize);
}

#[test]
fn free_lock_is_taken_at_once() {
    let result: LockAcquireResult<u8> = wait_for_lock_or_cache(&mut WaitCalls::new(
        |_| true,
        |_| panic!("no load"),
        |_| panic!("no pause"),
    ));
    assert!(matches!(result, LockAcquireResult::Acquired));
}

#[test]
fn calls_of_a_wait_come_in_numbered_rounds() {
    let calls = RefCell::new(Vec::new());
    let result = wait_for_lock_or_cache(&mut WaitCalls::new(
        |n| {
            calls.borrow_mut().push(("try", n));
            n == 2
        },
        |n| {
            calls.borrow_mut().push(("load", n));
            None::<u8>
        },
        |n| calls.borrow_mut().push(("sleep", n)),
    ));
    assert!(matches!(result, LockAcquireResult::Acquired));
    assert_eq!(
        calls.into_inner(),
        vec![
            ("try", 0),
            ("load", 0),
            ("sleep", 0),
            ("try", 1),
            ("load", 1),
            ("sleep", 1),
            ("try", 2),
        ]
    );
}

#[test]
fn waiting_lasts_about_three_seconds() {
    assert_eq!(LOCK_RETRY_ATTEMPTS as u64 * LOCK_RETRY_INTERVAL_MS, 3000);
}

#[test]
fn wait_steps() {
    let wait = LockWait::start();
    assert_eq!(wait.action, WaitAction::TryLock);
    let wait = match wait.step::<u8>(WaitEvent::Locked(false)) {
        WaitProgress::Waiting(wait) => wait,
        _ => panic!("still waiting"),
    };
    assert_eq!(wait.action, WaitAction::LoadCache);
    let wait = match wait.step::<u8>(WaitEvent::Loaded(None)) {
        WaitProgress::Waiting(wait) => wait,
        _ => panic!("still waiting"),
    };
    assert_eq!(wait.action, WaitAction::Sleep);
    let wait = match wait.step::<u8>(WaitEvent::Slept) {
        WaitProgress::Waiting(wait) => wait,
        _ => panic!("still waiting"),
    };
    assert_eq!(
        wait,
        LockWait {
            attempt: 1,
            action: WaitAction::TryLock
        }
    );
}

struct World {
    fresh: Vec<Option<u32>>,
    any: Vec<Option<u32>>,
    token: bool,
    fetched: Option<u32>,
    lock_file: bool,
    lock: fn() -> LockAcquireResult<u32>,
}

fn world() -> World {
    World {
        fresh: vec![None, None],
        any: vec![None, None],
        token: true,
        fetched: None,
        lock_file: true,
        lock: || LockAcquireResult::Acquired,
    }
}

fn show(force_refresh: bool, w: World) -> (Result<u32, String>, Vec<ShowAction>, Vec<u32>) {
    let actions = RefCell::new(Vec::new());
    let saved = RefCell::new(Vec::new());
    let fresh = RefCell::new(w.fresh);
    let any = RefCell::new(w.any);
    let result = run_show(
        Some(b"/home/me".to_vec()),
        force_refresh,
        &mut ShowCalls::new(
            |action| {
                actions.borrow_mut().push(action);
                match action {
                    ShowAction::LoadFreshCache | ShowAction::RecheckCache => {
                        ShowEvent::Loaded(fresh.borrow_mut().remove(0))
                    }
                    ShowAction::LoadAfterRefresh | ShowAction::LoadAnyCache => {
                        ShowEvent::Loaded(any.borrow_mut().remove(0))
                    }
                    ShowAction::ReadToken => ShowEvent::Token(w.token),
                    ShowAction::Fetch => ShowEvent::Fetched(w.fetched),
                    ShowAction::OpenLock => ShowEvent::LockOpened(w.lock_file),
                    ShowAction::WaitForLock => ShowEvent::Waited((w.lock)()),
                    ShowAction::SaveCache => ShowEvent::Saved,
                }
            },
            |data: &u32| saved.borrow_mut().push(*data),
        ),
    );
    (result, actions.into_inner(), saved.into_inner())
}

#[test]
fn fresh_cache_is_shown_without_a_request() {
    let mut w = world();
    w.fresh = vec![Some(7)];
    let (result, actions, saved) = show(false, w);
    assert_eq!(result, Ok(7));
    assert_eq!(actions, vec![ShowAction::LoadFreshCache]);
    assert!(saved.is_empty());
}

#[test]
fn request_is_made_under_the_lock_and_saved() {
    let mut w = world();
    w.fetched = Some(9);
    let (result, actions, saved) = show(false, w);
    assert_eq!(result, Ok(9));
    assert_eq!(
        actions,
        vec![
            ShowAction::LoadFreshCache,
            ShowAction::ReadToken,
            ShowAction::OpenLock,
            ShowAction::WaitForLock,
            ShowAction::RecheckCache,
            ShowAction::Fetch,
        ]
    );
    assert_eq!(saved, vec![9]);
}

#[test]
fn cache_left_by_another_process_is_used_under_the_lock() {
    let mut w = world();
    w.fresh = vec![None, Some(5)];
    let (result, actions, _) = show(false, w);
    assert_eq!(result, Ok(5));
    assert!(!actions.contains(&ShowAction::Fetch));
}

#[test]
fn cache_found_while_waiting_is_shown() {
    let mut w = world();
    w.lock = || LockAcquireResult::Cache(4);
    let (result, actions, _) = show(false, w);
    assert_eq!(result, Ok(4));
    assert!(!actions.contains(&ShowAction::Fetch));
}

#[test]
fn old_cache_is_the_last_resort() {
    for lock_file in [true, false] {
        let mut w = world();
        w.any = vec![Some(3)];
        w.lock_file = lock_file;
        assert_eq!(show(false, w).0, Ok(3));
    }
    let mut w = world();
    w.any = vec![Some(3)];
    w.lock = || LockAcquireResult::TimedOut;
    assert_eq!(show(false, w).0, Ok(3));
}

#[test]
fn forced_refresh_ignores_the_cache_and_the_lock() {
    let mut w = world();
    w.fresh = vec![Some(7)];
    w.fetched = Some(8);
    let (result, actions, saved) = show(true, w);
    assert_eq!(result, Ok(8));
    assert_eq!(actions, vec![ShowAction::ReadToken, ShowAction::Fetch]);
    assert_eq!(saved, vec![8]);
}

#[test]
fn failed_forced_refresh_falls_back_on_any_cache() {
    let mut w = world();
    w.any = vec![Some(6)];
    assert_eq!(show(true, w).0, Ok(6));
    let (result, actions, _) = show(true, world());
    assert_eq!(result, Err("no data".to_string()));
    assert_eq!(
        actions,
        vec![
            ShowAction::ReadToken,
            ShowAction::Fetch,
            ShowAction::LoadAfterRefresh,
            ShowAction::LoadAnyCache,
        ]
    );
}

#[test]
fn missing_token_and_missing_data_are_told_apart() {
    let mut w = world();
    w.token = false;
    w.any = vec![Some(3)];
    let (result, actions, saved) = show(false, w);
    assert_eq!(result, Err("no token".to_string()));
    assert_eq!(
        actions,
        vec![ShowAction::LoadFreshCache, ShowAction::ReadToken]
    );
    assert!(saved.is_empty());
    assert_eq!(show(false, world()).0, Err("no data".to_string()));
}

#[test]
fn nothing_is_tried_without_a_home() {
    let result: Result<u32, String> = run_show(
        None,
        false,
        &mut ShowCalls::new(
            |_| panic!("nothing to perform"),
            |_: &u32| panic!("nothing to save"),
        ),
    );
    assert_eq!(result, Err("HOME is not set".to_string()));
}

#[test]
fn machine_names_its_actions() {
    let state = ShowState::<u32>::start(false);
    assert_eq!(state.action(), Some(ShowAction::LoadFreshCache));
    let state = state.step(ShowEvent::Loaded(None));
    assert_eq!(state.action(), Some(ShowAction::ReadToken));
    let state = state.step(ShowEvent::Token(false));
    assert_eq!(state.action(), None);
    assert!(matches!(state, ShowState::Done(Err(ShowError::NoToken))));
}

fn product() -> Product {
    Product {
        name: "acme".to_string(),
        title: "Acme".to_string(),
    }
}

#[test]
fn keychain_entry_is_named_by_the_product() {
    assert_eq!(product().safe_storage_service(), "Acme Safe Storage");
    assert_eq!(product().safe_storage_account(), "Acme Key");
}

#[test]
fn paths_are_below_the_home_directory() {
    let var = || Some(b"/Users/me".to_vec());
    assert_eq!(home(var()), Ok(b"/Users/me".to_vec()));
    assert_eq!(
        credentials_path(&product(), var()),
        Ok(b"/Users/me/.acme/.credentials.json".to_vec())
    );
    assert_eq!(
        cache_path(&product(), var()),
        Ok(b"/Users/me/.acme/rate-limit-cache.json".to_vec())
    );
    assert_eq!(
        lock_path(&product(), var()),
        Ok(b"/Users/me/.acme/rate-limit.lock".to_vec())
    );
    assert_eq!(
        claude_config_path(&product(), var()),
        Ok(b"/Users/me/Library/Application Support/Acme/config.json".to_vec())
    );
}

#[test]
fn paths_keep_a_single_separator_and_any_bytes() {
    assert_eq!(
        lock_path(&product(), Some(b"/".to_vec())),
        Ok(b"/.acme/rate-limit.lock".to_vec())
    );
    assert_eq!(
        lock_path(&product(), Some(vec![0x2f, 0xff])),
        Ok([&[0x2f, 0xff][..], &b"/.acme/rate-limit.lock"[..]].concat())
    );
}

#[test]
fn home_has_to_be_set() {
    assert_eq!(home(None), Err("HOME is not set".to_string()));
    assert_eq!(cache_path(&product(), Some(Vec::new())), Err("HOME is not set".to_string()));
}
