use call_router::utils::AbortController;
use call_router::utils::AbortFlags;

#[test]
fn fresh_token_is_not_tripped() {
    let mut flags = AbortFlags::new();
    let controller = AbortController::new(&mut flags);
    assert!(!controller.is_aborted(&flags));
    assert!(!controller.signal().is_aborted(&flags));
    assert_eq!(flags.len(), 1);
}

#[test]
fn abort_trips_the_token_for_every_observer() {
    let mut flags = AbortFlags::new();
    let controller = AbortController::new(&mut flags);
    let first = controller.signal();
    let second = controller.signal();
    controller.abort(&mut flags);
    assert!(controller.is_aborted(&flags));
    assert!(first.is_aborted(&flags));
    assert!(second.is_aborted(&flags));
}

#[test]
fn abort_is_idempotent_and_leaves_other_tokens_alone() {
    let mut flags = AbortFlags::new();
    let one = AbortController::new(&mut flags);
    let other = AbortController::new(&mut flags);
    one.abort(&mut flags);
    one.abort(&mut flags);
    assert!(one.is_aborted(&flags));
    assert!(!other.is_aborted(&flags));
    assert_eq!(flags.len(), 2);
}

#[test]
fn token_of_another_table_reads_untripped() {
    let mut big = AbortFlags::new();
    let _first = AbortController::new(&mut big);
    let second = AbortController::new(&mut big);
    let mut small = AbortFlags::new();
    second.abort(&mut small);
    assert_eq!(small.len(), 0);
    assert!(!second.is_aborted(&small));
    assert!(!second.is_aborted(&big));
}
