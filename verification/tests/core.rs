use atomic_state::{Flag, State};
use std::time::{Duration, Instant};

#[test]
fn flag_starts_clear() {
    let f = Flag::new();
    assert!(!f.get());
    assert!(f.is_false());
    assert!(!f.is_true());
}

#[test]
fn flag_from_bool_holds_value() {
    let t = Flag::from_bool(true);
    assert!(t.get());
    assert!(t.is_true());
    let f = Flag::from_bool(false);
    assert!(!f.get());
}

#[test]
fn flag_set_toggles() {
    let mut f = Flag::new();
    f.set(true);
    assert!(f.get());
    f.set(false);
    assert!(!f.get());
}

#[test]
fn flag_blocking_wait_returns_when_reached() {
    let f = Flag::from_bool(true);
    f.blocking_wait(true);
    assert!(f.get());
}

#[test]
fn flag_blocking_swap_toggles() {
    let mut f = Flag::new();
    f.blocking_swap(true);
    assert!(f.get());
    f.blocking_swap(false);
    assert!(!f.get());
}

#[test]
fn timeout_wait_true_at_once_when_reached() {
    let f = Flag::from_bool(true);
    let start = Instant::now();
    assert!(f.blocking_wait_timeout(true, Duration::from_millis(500)));
    assert!(start.elapsed() < Duration::from_millis(400));
}

#[test]
fn timeout_wait_false_after_deadline_when_never_reached() {
    let f = Flag::new();
    let start = Instant::now();
    assert!(!f.blocking_wait_timeout(true, Duration::from_millis(50)));
    let spent = start.elapsed();
    assert!(spent >= Duration::from_millis(50));
    assert!(spent < Duration::from_millis(2000));
}

#[test]
fn state_round_trip_value() {
    let s = State::from_value(42u64);
    assert_eq!(s.blocking_get_cloned(), 42);
    assert_eq!(*s.blocking_get(), 42);
}

#[test]
fn state_round_trip_string() {
    let s = State::from_value(String::from("hello"));
    assert_eq!(s.blocking_get_cloned(), "hello");
}

#[test]
fn state_round_trip_vec() {
    let s = State::from_value(vec![1u8, 2, 3]);
    assert_eq!(s.blocking_get_cloned(), vec![1u8, 2, 3]);
}

#[test]
fn state_new_seeds_default() {
    let s = State::<u64>::new();
    assert_eq!(s.blocking_get_cloned(), 0);
    let t = State::<String>::new();
    assert_eq!(t.blocking_get_cloned(), "");
}

#[test]
fn state_set_publishes_each_commit() {
    let mut s = State::from_value(0u64);
    s.blocking_set(1);
    assert_eq!(*s.blocking_get(), 1);
    s.blocking_set(2);
    assert_eq!(*s.blocking_get(), 2);
}

#[test]
fn reads_see_only_committed_values() {
    let mut s = State::from_value(10u64);
    let mut seen = Vec::new();
    seen.push(s.blocking_get_cloned());
    s.blocking_set(20);
    seen.push(s.blocking_get_cloned());
    s.blocking_set(30);
    seen.push(s.blocking_get_cloned());
    for v in seen {
        assert!(v == 10 || v == 20 || v == 30);
    }
    assert_eq!(*s.blocking_get(), 30);
}

#[test]
fn guard_commit_publishes_working_copy() {
    let mut s = State::from_value(5u64);
    let mut g = s.blocking_lock();
    assert!(s.is_locked());
    assert_eq!(*g.get(), 5);
    g.set(6);
    // the cell still holds the old snapshot while the guard edits
    assert_eq!(*s.unsafe_get(), 5);
    s.commit(g);
    assert!(!s.is_locked());
    assert_eq!(*s.blocking_get(), 6);
}

#[test]
fn guard_blocks_second_lock_until_commit() {
    let mut s = State::from_value(1u64);
    let g = s.blocking_lock();
    assert!(s.is_locked());
    s.commit(g);
    assert!(!s.is_locked());
    // with the first guard committed, a second lock goes through at once
    let g2 = s.blocking_lock();
    assert!(s.is_locked());
    s.commit(g2);
    assert!(!s.is_locked());
}

#[test]
fn unsafe_set_races_guard_and_last_commit_wins() {
    let mut s = State::from_value(1u64);
    let g = s.blocking_lock();
    s.unsafe_set(99);
    assert_eq!(*s.unsafe_get(), 99);
    // the outstanding guard commits last and silently overwrites
    s.commit(g);
    assert_eq!(*s.blocking_get(), 1);
}

#[test]
fn unsafe_lock_skips_the_wait() {
    let mut s = State::from_value(7u64);
    let g = s.unsafe_lock();
    assert!(s.is_locked());
    assert_eq!(*g.get(), 7);
    s.commit(g);
    assert_eq!(*s.blocking_get(), 7);
}

#[test]
fn map_applies_mutation_to_snapshot() {
    let mut s = State::from_value(3u64);
    s.blocking_map(|x| x * 10);
    assert_eq!(*s.blocking_get(), 30);
    s.unsafe_map(|x| x + 1);
    assert_eq!(*s.blocking_get(), 31);
}

#[test]
fn serialized_increments_sum_up() {
    let rounds: u64 = 1000;
    let mut s = State::from_value(0u64);
    for _ in 0..rounds {
        s.blocking_map(|c| c + 1);
    }
    assert_eq!(s.blocking_get_cloned(), rounds);
}

#[test]
fn interleaved_sets_and_maps_keep_the_last_commit() {
    let mut s = State::from_value(0u64);
    s.blocking_set(4);
    s.blocking_map(|x| x * 2);
    s.blocking_set(100);
    assert_eq!(*s.blocking_get(), 100);
}

#[test]
fn default_instances_start_clear() {
    let f = Flag::default();
    assert!(!f.get());
    let s = State::<u64>::default();
    assert_eq!(s.blocking_get_cloned(), 0);
    assert!(!s.is_locked());
}
