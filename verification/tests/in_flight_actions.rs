use orchardpay::ui::state::in_flight_actions::{InFlightActions, IN_FLIGHT_TIMEOUT};

const ONE_SECOND: u128 = 1_000_000_000;

#[test]
fn a_key_is_in_flight_only_once() {
    let mut guard = InFlightActions::new();

    assert!(guard.begin(1), "the first click owns the action");
    assert!(guard.is_in_flight(&1));
    assert!(
        !guard.begin(1),
        "a second click must not claim an action that is already running"
    );
    assert!(guard.begin(2), "the guard is per key, not global");
}

#[test]
fn releasing_one_key_leaves_others_protected() {
    let mut guard = InFlightActions::new();
    assert!(guard.begin(1));
    assert!(guard.begin(2));

    guard.release(&1);

    assert!(!guard.is_in_flight(&1));
    assert!(guard.is_in_flight(&2));
}

#[test]
fn clear_releases_every_key() {
    let mut guard = InFlightActions::new();
    assert!(guard.begin(1));
    assert!(guard.begin(2));

    guard.clear();

    assert!(!guard.is_in_flight(&1));
    assert!(!guard.is_in_flight(&2));
}

#[test]
fn a_guard_older_than_the_timeout_still_blocks_dispatch_until_released() {
    let mut guard = InFlightActions::new();
    assert!(guard.begin_at(1, 0));
    let now = IN_FLIGHT_TIMEOUT + ONE_SECOND;

    assert!(guard.is_in_flight(&1));
    assert!(guard.is_taking_long_at(&1, now));
    assert!(
        !guard.begin_at(1, now),
        "elapsed time alone must not permit a second dispatch"
    );
    assert!(!guard.begin(1));
}

#[test]
fn prune_stale_drops_only_expired_guards() {
    let now = IN_FLIGHT_TIMEOUT + ONE_SECOND;
    let mut guard = InFlightActions::new();
    assert!(guard.begin_at(1, 0));
    assert!(guard.begin_at(2, now));

    guard.prune_stale_at(now);

    assert!(
        !guard.is_in_flight(&1),
        "a guard past the timeout must be pruned"
    );
    assert!(guard.is_in_flight(&2), "a fresh guard must survive pruning");
}

#[test]
fn keys_lists_every_tracked_key() {
    let mut guard = InFlightActions::new();
    assert!(guard.begin(1));
    assert!(guard.begin(2));

    let mut keys: Vec<i32> = guard.keys();
    keys.sort_unstable();
    assert_eq!(keys, vec![1, 2]);
}

#[test]
fn a_guard_is_long_exactly_from_the_timeout_on() {
    let mut guard = InFlightActions::new();
    assert!(guard.begin_at(7, 5));
    assert!(!guard.is_taking_long_at(&7, 5 + IN_FLIGHT_TIMEOUT - 1));
    assert!(guard.is_taking_long_at(&7, 5 + IN_FLIGHT_TIMEOUT));
    assert!(!guard.is_taking_long_at(&8, 5 + IN_FLIGHT_TIMEOUT));
    guard.prune_stale_at(5 + IN_FLIGHT_TIMEOUT - 1);
    assert!(guard.is_in_flight(&7));
}

#[test]
fn a_fresh_guard_is_neither_long_nor_pruned() {
    let mut guard = InFlightActions::new();
    assert!(guard.begin(1));
    assert!(!guard.is_taking_long(&1));
    guard.prune_stale();
    assert!(guard.is_in_flight(&1));
    let copy = guard.clone();
    assert!(copy.is_in_flight(&1));
}
