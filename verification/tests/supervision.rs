use employees::{Error, Shutdown, Supervisor};

type Book = Supervisor<u32, &'static str>;

#[test]
fn failed_launch_stops_the_runtime() {
    let mut book = Book::new();
    let r = book.record_launch(Err(Error::context("bad context")));
    assert!(matches!(r, Err(Error::Context(ref m)) if m == "bad context"));
    assert!(book.has_requested_stop());
    assert!(!book.shutdown().is_running());
    assert!(book.take_threads().is_empty());
}

#[test]
fn failed_respawnable_launch_stops_the_runtime() {
    let mut book = Book::new();
    let r = book.record_respawnable("ctx", Err(Error::other("boom")));
    assert!(r.is_err());
    assert!(book.has_requested_stop());
    assert!(!book.shutdown().is_running());
    assert!(!book.has_respawnables());
}

#[test]
fn launched_threads_are_joined_in_launch_order() {
    let mut book = Book::new();
    assert!(book.record_launch(Ok(7)).is_ok());
    assert!(book.record_launch(Ok(3)).is_ok());
    assert!(book.record_launch(Ok(9)).is_ok());
    assert!(!book.has_requested_stop());
    assert!(book.shutdown().is_running());
    assert_eq!(book.take_threads(), vec![7, 3, 9]);
    assert!(book.take_threads().is_empty());
}

#[test]
fn nested_runtime_obeys_its_parent() {
    let parent = Shutdown::new();
    let mut book = Book::nested(parent.clone());
    assert!(book.is_nested());
    assert!(book.shutdown().is_running());
    parent.stop();
    assert!(!book.shutdown().is_running());
    assert!(!book.close());
    assert!(!book.has_requested_stop());
}

#[test]
fn closing_a_nested_runtime_leaves_the_parent_running() {
    let parent = Shutdown::new();
    let mut book = Book::nested(parent.clone());
    assert!(!book.close());
    assert!(parent.is_running());
}

#[test]
fn closing_a_root_runtime_stops_it() {
    let mut book = Book::new();
    assert!(!book.is_nested());
    let flag = book.shutdown().clone();
    assert!(book.close());
    assert!(book.has_requested_stop());
    assert!(!flag.is_running());
}

/// Runs one health check round on `book`: `finished[i]` and `panicked[i]` are what
/// is observed of the `i`-th worker, and respawns get the handles from `fresh`.
fn health_check(
    book: &mut Book,
    finished: &[bool],
    panicked: &[bool],
    fresh: &mut Vec<Result<u32, Error>>,
) -> Vec<u32> {
    let mut joined = Vec::new();
    for i in 0..book.slot_count() {
        if let Some(h) = book.begin_check(i, finished[i]) {
            joined.push(h);
            if book.record_join(i, panicked[i]) {
                let outcome = fresh.remove(0);
                let _ = book.record_respawn(i, outcome);
            }
        }
    }
    book.retain_held();
    joined
}

#[test]
fn health_check_respawns_the_panicked_and_drops_the_finished() {
    let mut book = Book::new();
    assert!(book.record_respawnable("runs", Ok(1)).is_ok());
    assert!(book.record_respawnable("exits", Ok(2)).is_ok());
    assert!(book.record_respawnable("panics", Ok(3)).is_ok());
    assert_eq!(book.slot_count(), 3);

    let mut fresh = vec![Ok(30)];
    let joined = health_check(
        &mut book,
        &[false, true, true],
        &[false, false, true],
        &mut fresh,
    );
    assert_eq!(joined, vec![2, 3]);
    assert!(fresh.is_empty());
    assert_eq!(book.slot_count(), 2);
    assert_eq!(book.handle(0), Some(&1));
    assert_eq!(*book.context(0), "runs");
    assert_eq!(book.handle(1), Some(&30));
    assert_eq!(*book.context(1), "panics");
    assert!(!book.has_requested_stop());
}

#[test]
fn failed_respawn_drops_the_worker_without_stopping() {
    let mut book = Book::new();
    assert!(book.record_respawnable("panics", Ok(5)).is_ok());
    assert!(book.begin_check(0, true) == Some(5));
    assert!(book.record_join(0, true));
    let r = book.record_respawn(0, Err(Error::context("cannot rebuild")));
    assert!(r.is_err());
    assert_eq!(book.handle(0), None);
    book.retain_held();
    assert!(!book.has_respawnables());
    assert!(!book.has_requested_stop());
    assert!(book.shutdown().is_running());
}

#[test]
fn running_workers_are_not_joined() {
    let mut book = Book::new();
    assert!(book.record_respawnable("a", Ok(1)).is_ok());
    assert_eq!(book.begin_check(0, false), None);
    assert!(!book.record_join(0, true));
    assert_eq!(book.handle(0), Some(&1));
    book.retain_held();
    assert_eq!(book.slot_count(), 1);
}

#[test]
fn a_worker_that_finishes_after_its_check_is_kept_until_joined() {
    let mut book = Book::new();
    assert!(book.record_respawnable("panics", Ok(4)).is_ok());
    // Observed running: nothing is joined, and the worker is kept.
    assert!(health_check(&mut book, &[false], &[true], &mut vec![]).is_empty());
    assert_eq!(book.slot_count(), 1);
    // Observed finished at the next check: joined, found panicked, respawned.
    let mut fresh = vec![Ok(40)];
    assert_eq!(health_check(&mut book, &[true], &[true], &mut fresh), vec![4]);
    assert_eq!(book.slot_count(), 1);
    assert_eq!(book.handle(0), Some(&40));
}

#[test]
fn a_worker_that_exits_cleanly_is_dropped_once_joined() {
    let mut book = Book::new();
    assert!(book.record_respawnable("exits", Ok(6)).is_ok());
    assert_eq!(health_check(&mut book, &[true], &[false], &mut vec![]), vec![6]);
    assert!(!book.has_respawnables());
}

#[test]
fn waiting_keeps_the_stop_status() {
    let mut book = Book::new();
    assert!(book.record_launch(Ok(1)).is_ok());
    assert!(book.record_respawnable("exits", Ok(2)).is_ok());
    while book.has_respawnables() {
        health_check(&mut book, &[true], &[false], &mut vec![]);
    }
    assert_eq!(book.take_threads(), vec![1]);
    assert!(!book.has_requested_stop());
    assert!(book.shutdown().is_running());
    // A second wait finds nothing.
    assert!(!book.has_respawnables());
    assert!(book.take_threads().is_empty());
}

#[test]
fn released_slots_hand_back_their_live_handles() {
    let mut book = Book::new();
    assert!(book.record_respawnable("a", Ok(1)).is_ok());
    assert!(book.record_respawnable("b", Ok(2)).is_ok());
    assert!(book.record_respawnable("c", Ok(3)).is_ok());
    assert_eq!(book.begin_check(1, true), Some(2));
    assert!(!book.record_join(1, false));
    assert_eq!(book.release_slots(), vec![1, 3]);
    assert!(!book.has_respawnables());
}

#[test]
fn a_finished_thread_is_handed_out_once() {
    let mut book = Book::new();
    assert!(book.record_respawnable("a", Ok(8)).is_ok());
    assert_eq!(book.begin_check(0, true), Some(8));
    assert_eq!(book.begin_check(0, true), None);
    assert_eq!(book.handle(0), None);
}

#[test]
fn waiting_hands_out_every_handle() {
    let mut book = Book::new();
    assert!(book.record_launch(Ok(1)).is_ok());
    assert!(book.record_respawnable("a", Ok(2)).is_ok());
    assert_eq!(book.take_threads(), vec![1]);
    assert_eq!(book.release_slots(), vec![2]);
    assert!(book.take_threads().is_empty());
    assert!(!book.has_respawnables());
    assert_eq!(book.slot_count(), 0);
}
