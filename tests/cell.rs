use completable::{fill_once, peek, wait_outcome, CompletableFuture, CompletionError, PollState};
use std::sync::PoisonError;
use std::time::{Duration, Instant};

#[test]
fn new_cell_is_empty() {
    let mut cell: CompletableFuture<u32> = CompletableFuture::new();
    assert!(!cell.is_complete());
    assert_eq!(cell.poll(), Ok(PollState::NotReady));
}

#[test]
fn complete_then_read() {
    let mut cell: CompletableFuture<u32> = CompletableFuture::new();
    assert_eq!(cell.complete(7), Ok(()));
    assert!(cell.is_complete());
    assert_eq!(cell.poll(), Ok(PollState::Ready(7)));
    assert_eq!(cell.wait_timeout(Duration::from_millis(10)), Ok(7));
}

#[test]
fn second_completion_is_rejected() {
    let mut cell: CompletableFuture<u32> = CompletableFuture::new();
    assert_eq!(cell.complete(1), Ok(()));
    assert_eq!(cell.complete(2), Err(CompletionError::AlreadyComplete));
    assert_eq!(cell.complete(3), Err(CompletionError::AlreadyComplete));
    assert_eq!(cell.wait_timeout(Duration::from_millis(10)), Ok(1));
}

#[test]
fn many_completions_have_one_winner() {
    let cell: CompletableFuture<usize> = CompletableFuture::new();
    let mut handles: Vec<CompletableFuture<usize>> = (0..8).map(|_| cell.clone()).collect();
    let mut winners = Vec::new();
    for (i, h) in handles.iter_mut().enumerate() {
        match h.complete(i) {
            Ok(()) => winners.push(i),
            Err(e) => assert_eq!(e, CompletionError::AlreadyComplete),
        }
    }
    assert_eq!(winners, vec![0]);
    for h in handles.iter() {
        assert_eq!(h.wait_timeout(Duration::from_millis(1)), Ok(0));
    }
}

#[test]
fn waiting_after_completion_returns_at_once() {
    let cell: CompletableFuture<u32> = CompletableFuture::new();
    let mut producer = cell.clone();
    assert_eq!(producer.complete(42), Ok(()));
    let start = Instant::now();
    assert_eq!(cell.wait_timeout(Duration::from_secs(10)), Ok(42));
    assert!(start.elapsed() < Duration::from_secs(1));
}

#[test]
fn every_reader_receives_the_value() {
    let cell: CompletableFuture<u64> = CompletableFuture::new();
    let readers: Vec<CompletableFuture<u64>> = (0..6).map(|_| cell.clone()).collect();
    let mut producer = cell.clone();
    assert_eq!(producer.complete(77), Ok(()));
    for r in readers.iter() {
        assert_eq!(r.wait_timeout(Duration::from_secs(10)), Ok(77));
    }
}

#[test]
fn poisoned_lock_is_reported_as_deadlock() {
    let e: PoisonError<u8> = PoisonError::new(0);
    assert_eq!(CompletionError::from(e), CompletionError::Deadlock);
}

#[test]
fn completion_stays_visible() {
    let mut cell: CompletableFuture<u32> = CompletableFuture::new();
    cell.complete(5).unwrap();
    let other = cell.clone();
    for _ in 0..100 {
        assert!(cell.is_complete());
        assert!(other.is_complete());
    }
    let _ = cell.complete(6);
    assert!(other.is_complete());
    assert_eq!(other.wait_timeout(Duration::from_millis(1)), Ok(5));
}

#[test]
fn wait_times_out_on_empty_cell() {
    let cell: CompletableFuture<u32> = CompletableFuture::new();
    let d = Duration::from_millis(100);
    let start = Instant::now();
    assert_eq!(cell.wait_timeout(d), Err(CompletionError::TimedOut));
    let waited = start.elapsed();
    assert!(waited >= d);
    assert!(waited < Duration::from_secs(5));
}

#[test]
fn wait_can_be_retried_after_timeout() {
    let mut cell: CompletableFuture<u32> = CompletableFuture::new();
    assert_eq!(cell.wait_timeout(Duration::from_millis(5)), Err(CompletionError::TimedOut));
    cell.complete(9).unwrap();
    assert_eq!(cell.wait_timeout(Duration::from_millis(5)), Ok(9));
}

#[test]
fn poll_does_not_block() {
    let mut cell: CompletableFuture<u32> = CompletableFuture::new();
    let start = Instant::now();
    for _ in 0..1000 {
        assert_eq!(cell.poll(), Ok(PollState::NotReady));
    }
    assert!(start.elapsed() < Duration::from_secs(1));
    cell.complete(3).unwrap();
    let start = Instant::now();
    for _ in 0..1000 {
        assert_eq!(cell.poll(), Ok(PollState::Ready(3)));
    }
    assert!(start.elapsed() < Duration::from_secs(1));
}

#[test]
fn precompleted_cell_is_ready() {
    let mut cell = CompletableFuture::completed(String::from("done"));
    assert!(cell.is_complete());
    assert_eq!(cell.poll(), Ok(PollState::Ready(String::from("done"))));
    assert_eq!(cell.wait_timeout(Duration::from_millis(0)), Ok(String::from("done")));
    assert_eq!(cell.complete(String::from("again")), Err(CompletionError::AlreadyComplete));
}

#[test]
fn readers_get_independent_copies() {
    let cell = CompletableFuture::completed(vec![1, 2, 3]);
    let mut a = cell.wait_timeout(Duration::from_millis(1)).unwrap();
    let b = cell.wait_timeout(Duration::from_millis(1)).unwrap();
    a.push(4);
    assert_eq!(a, vec![1, 2, 3, 4]);
    assert_eq!(b, vec![1, 2, 3]);
    assert_eq!(cell.wait_timeout(Duration::from_millis(1)), Ok(vec![1, 2, 3]));
}

#[test]
fn fill_once_fills_empty_slot() {
    let mut slot: Option<u8> = None;
    assert_eq!(fill_once(&mut slot, 4), Ok(()));
    assert_eq!(slot, Some(4));
}

#[test]
fn fill_once_keeps_first_value() {
    let mut slot: Option<u8> = Some(1);
    assert_eq!(fill_once(&mut slot, 2), Err(CompletionError::AlreadyComplete));
    assert_eq!(slot, Some(1));
}

#[test]
fn peek_reports_slot() {
    assert_eq!(peek(&None::<u8>), PollState::NotReady);
    assert_eq!(peek(&Some(8u8)), PollState::Ready(8));
}

#[test]
fn wait_outcome_reports_slot() {
    assert_eq!(wait_outcome(&None::<u8>), Err(CompletionError::TimedOut));
    assert_eq!(wait_outcome(&Some(String::from("v"))), Ok(String::from("v")));
}
