use dydx_sequencing::allocator::{ReserveStep, SequenceAllocator};
use dydx_sequencing::cache::{Entry, SeqState, SequenceCache};
use dydx_sequencing::config::{ChainId, Denom, NodeConfig};
use dydx_sequencing::coordinator::{SubmissionCoordinator, TxOutcome};
use dydx_sequencing::error::{AllocatorError, ChannelError, ResolveError, SubmitError};

const ACC: u64 = 7;

fn config(manage: bool) -> NodeConfig {
    let mut c = NodeConfig::new(
        "http://localhost:9090".to_string(),
        ChainId("dydx-testnet-4".to_string()),
        Denom("adv4tnt".to_string()),
    );
    c.manage_sequencing = manage;
    c
}

fn seeded(value: u64) -> SequenceAllocator {
    let mut a = SequenceAllocator::new();
    assert_eq!(a.begin_reserve(ACC), Ok(ReserveStep::Resolve));
    assert_eq!(a.finish_resolve(ACC, Ok(value)), Ok(value));
    assert!(a.confirm(ACC, value, false));
    a
}

fn entry_value(a: &SequenceAllocator) -> u64 {
    a.cache().get(ACC).unwrap().value()
}

fn entry_state(a: &SequenceAllocator) -> SeqState {
    a.cache().get(ACC).unwrap().state()
}

#[test]
fn first_reservation_resolves_and_second_waits() {
    let mut a = SequenceAllocator::new();
    assert_eq!(a.begin_reserve(ACC), Ok(ReserveStep::Resolve));
    assert_eq!(a.begin_reserve(ACC), Ok(ReserveStep::Wait));
    assert_eq!(a.finish_resolve(ACC, Ok(42)), Ok(42));
    assert_eq!(entry_value(&a), 43);
    assert_eq!(a.begin_reserve(ACC), Ok(ReserveStep::Reserved(43)));
    assert_eq!(entry_value(&a), 44);
    assert_eq!(a.in_flight_count(ACC), 2);
}

#[test]
fn reservations_form_a_contiguous_run() {
    let mut a = seeded(100);
    let mut got = Vec::new();
    for _ in 0..5 {
        match a.begin_reserve(ACC) {
            Ok(ReserveStep::Reserved(v)) => got.push(v),
            other => panic!("unexpected {:?}", other),
        }
    }
    assert_eq!(got, vec![101, 102, 103, 104, 105]);
    assert_eq!(entry_value(&a), 106);
    assert_eq!(a.in_flight_count(ACC), 5);
}

#[test]
fn sequence_mismatch_forces_one_fresh_resolution() {
    let mut a = SequenceAllocator::new();
    assert_eq!(a.begin_reserve(ACC), Ok(ReserveStep::Resolve));
    assert_eq!(a.finish_resolve(ACC, Ok(10)), Ok(10));
    a.invalidate(ACC, 10);
    assert_eq!(entry_state(&a), SeqState::Stale);
    assert_eq!(a.in_flight_count(ACC), 0);
    assert_eq!(a.begin_reserve(ACC), Ok(ReserveStep::Resolve));
    assert_eq!(a.begin_reserve(ACC), Ok(ReserveStep::Wait));
    assert_eq!(a.finish_resolve(ACC, Ok(11)), Ok(11));
    assert_eq!(entry_value(&a), 12);
}

#[test]
fn timeout_keeps_advanced_value_without_resolution() {
    let mut c = SubmissionCoordinator::new(&config(true));
    assert_eq!(c.acquire(ACC, 0), Ok(ReserveStep::Resolve));
    assert_eq!(c.resolved(ACC, Ok(5)), Ok(5));
    assert_eq!(
        c.settle(ACC, 5, TxOutcome::Channel(ChannelError::Timeout)),
        Err(SubmitError::Channel(ChannelError::Timeout))
    );
    let e = c.allocator().cache().get(ACC).unwrap();
    assert_eq!(e.value(), 6);
    assert_eq!(e.state(), SeqState::Ready);
    assert_eq!(e.in_flight_count(), 0);
    assert_eq!(c.acquire(ACC, 0), Ok(ReserveStep::Reserved(6)));
}

#[test]
fn duplicate_confirm_is_a_no_op() {
    let mut a = seeded(3);
    assert_eq!(a.begin_reserve(ACC), Ok(ReserveStep::Reserved(4)));
    assert_eq!(a.begin_reserve(ACC), Ok(ReserveStep::Reserved(5)));
    assert_eq!(a.in_flight_count(ACC), 2);
    assert!(a.confirm(ACC, 4, true));
    assert_eq!(a.in_flight_count(ACC), 1);
    assert!(!a.confirm(ACC, 4, true));
    assert_eq!(a.in_flight_count(ACC), 1);
    assert_eq!(entry_state(&a), SeqState::Reserved);
    assert!(a.confirm(ACC, 5, true));
    assert!(!a.confirm(ACC, 5, true));
    assert_eq!(a.in_flight_count(ACC), 0);
    assert_eq!(entry_state(&a), SeqState::Confirmed);
    assert_eq!(a.begin_reserve(ACC), Ok(ReserveStep::Reserved(6)));
}

#[test]
fn confirm_on_unknown_account_is_a_no_op() {
    let mut a = SequenceAllocator::new();
    assert!(!a.confirm(ACC, 1, true));
    assert!(a.cache().get(ACC).is_none());
    assert_eq!(a.in_flight_count(ACC), 0);
}

#[test]
fn unmanaged_sequencing_never_touches_the_cache() {
    let mut c = SubmissionCoordinator::new(&config(false));
    assert!(!c.manage_sequencing());
    for i in 0..4u64 {
        assert_eq!(c.acquire(ACC, 20 + i), Ok(ReserveStep::Reserved(20 + i)));
        let _ = c.settle(ACC, 20 + i, TxOutcome::SequenceMismatch);
        let _ = c.settle(ACC, 20 + i, TxOutcome::Accepted);
    }
    assert!(c.allocator().cache().get(ACC).is_none());
    assert_eq!(c.resolved(ACC, Ok(9)), Ok(9));
    assert!(c.allocator().cache().get(ACC).is_none());
}

#[test]
fn resolution_failure_leaves_entry_unresolved() {
    let mut a = SequenceAllocator::new();
    assert_eq!(a.begin_reserve(ACC), Ok(ReserveStep::Resolve));
    assert_eq!(
        a.finish_resolve(ACC, Err(ResolveError::Channel(ChannelError::Transport))),
        Err(AllocatorError::Resolve(ResolveError::Channel(ChannelError::Transport)))
    );
    assert_eq!(entry_state(&a), SeqState::Unknown);
    assert_eq!(a.begin_reserve(ACC), Ok(ReserveStep::Resolve));
    assert_eq!(
        a.finish_resolve(ACC, Err(ResolveError::AccountNotFound)),
        Err(AllocatorError::Resolve(ResolveError::AccountNotFound))
    );
}

#[test]
fn resolution_failure_surfaces_through_coordinator() {
    let mut c = SubmissionCoordinator::new(&config(true));
    assert_eq!(c.acquire(ACC, 0), Ok(ReserveStep::Resolve));
    assert_eq!(
        c.resolved(ACC, Err(ResolveError::AccountNotFound)),
        Err(SubmitError::Allocator(AllocatorError::Resolve(ResolveError::AccountNotFound)))
    );
}

#[test]
fn exhausted_sequence_is_reported() {
    let mut a = SequenceAllocator::new();
    assert_eq!(a.begin_reserve(ACC), Ok(ReserveStep::Resolve));
    assert_eq!(a.finish_resolve(ACC, Ok(u64::MAX)), Err(AllocatorError::Exhausted));
    assert_eq!(entry_state(&a), SeqState::Fresh);
    assert_eq!(a.begin_reserve(ACC), Err(AllocatorError::Exhausted));

    let mut b = SequenceAllocator::new();
    assert_eq!(b.begin_reserve(ACC), Ok(ReserveStep::Resolve));
    assert_eq!(b.finish_resolve(ACC, Ok(u64::MAX - 1)), Ok(u64::MAX - 1));
    assert_eq!(b.begin_reserve(ACC), Err(AllocatorError::Exhausted));
}

#[test]
fn settle_outcomes_map_to_errors() {
    let mut c = SubmissionCoordinator::new(&config(true));
    assert_eq!(c.acquire(ACC, 0), Ok(ReserveStep::Resolve));
    assert_eq!(c.resolved(ACC, Ok(1)), Ok(1));
    assert_eq!(c.acquire(ACC, 0), Ok(ReserveStep::Reserved(2)));
    assert_eq!(c.acquire(ACC, 0), Ok(ReserveStep::Reserved(3)));
    assert_eq!(c.settle(ACC, 1, TxOutcome::Accepted), Ok(()));
    assert_eq!(
        c.settle(ACC, 2, TxOutcome::Rejected("insufficient fee".to_string())),
        Err(SubmitError::Rejected("insufficient fee".to_string()))
    );
    assert_eq!(c.allocator().in_flight_count(ACC), 1);
    assert_eq!(c.settle(ACC, 3, TxOutcome::SequenceMismatch), Err(SubmitError::SequenceConflict));
    assert_eq!(c.allocator().in_flight_count(ACC), 0);
    assert_eq!(c.allocator().cache().get(ACC).unwrap().state(), SeqState::Stale);
    assert_eq!(c.acquire(ACC, 0), Ok(ReserveStep::Resolve));
}

#[test]
fn invalidate_during_resolution_keeps_single_flight() {
    let mut a = seeded(8);
    assert_eq!(a.begin_reserve(ACC), Ok(ReserveStep::Reserved(9)));
    a.invalidate(ACC, 9);
    assert_eq!(a.begin_reserve(ACC), Ok(ReserveStep::Resolve));
    a.invalidate(ACC, 8);
    assert_eq!(entry_state(&a), SeqState::Resolving);
    assert_eq!(a.begin_reserve(ACC), Ok(ReserveStep::Wait));
}

#[test]
fn cache_get_put_and_mark_stale() {
    let mut c = SequenceCache::new();
    assert!(c.get(1).is_none());
    c.mark_stale(1);
    assert!(c.get(1).is_none());
    c.put(1, Entry::blank(SeqState::Fresh));
    assert_eq!(c.get(1).unwrap().state(), SeqState::Fresh);
    assert_eq!(c.get(1).unwrap().value(), 0);
    c.mark_stale(1);
    assert_eq!(c.get(1).unwrap().state(), SeqState::Stale);
    assert!(c.get(2).is_none());
    assert!(!c.get(1).unwrap().is_pending(0));
}

#[test]
fn accounts_are_independent() {
    let mut a = SequenceAllocator::new();
    assert_eq!(a.begin_reserve(1), Ok(ReserveStep::Resolve));
    assert_eq!(a.begin_reserve(2), Ok(ReserveStep::Resolve));
    assert_eq!(a.finish_resolve(1, Ok(50)), Ok(50));
    assert_eq!(a.begin_reserve(2), Ok(ReserveStep::Wait));
    assert_eq!(a.finish_resolve(2, Ok(7)), Ok(7));
    assert_eq!(a.begin_reserve(1), Ok(ReserveStep::Reserved(51)));
    assert_eq!(a.begin_reserve(2), Ok(ReserveStep::Reserved(8)));
}

#[test]
fn number_handed_out_again_after_resolution_is_counted_twice() {
    let mut c = SubmissionCoordinator::new(&config(true));
    assert_eq!(c.acquire(ACC, 0), Ok(ReserveStep::Resolve));
    assert_eq!(c.resolved(ACC, Ok(10)), Ok(10));
    assert_eq!(c.acquire(ACC, 0), Ok(ReserveStep::Reserved(11)));
    assert_eq!(c.settle(ACC, 10, TxOutcome::SequenceMismatch), Err(SubmitError::SequenceConflict));
    assert_eq!(c.allocator().in_flight_count(ACC), 1);
    assert_eq!(c.acquire(ACC, 0), Ok(ReserveStep::Resolve));
    assert_eq!(c.resolved(ACC, Ok(11)), Ok(11));
    assert_eq!(c.allocator().in_flight_count(ACC), 2);
    assert_eq!(
        c.settle(ACC, 11, TxOutcome::Channel(ChannelError::Timeout)),
        Err(SubmitError::Channel(ChannelError::Timeout))
    );
    assert_eq!(c.allocator().in_flight_count(ACC), 1);
    assert!(c.allocator().cache().get(ACC).unwrap().is_pending(11));
    assert_eq!(c.settle(ACC, 11, TxOutcome::Accepted), Ok(()));
    assert_eq!(c.allocator().in_flight_count(ACC), 0);
    assert!(!c.allocator().cache().get(ACC).unwrap().is_pending(11));
    assert_eq!(c.settle(ACC, 11, TxOutcome::Accepted), Ok(()));
    assert_eq!(c.allocator().in_flight_count(ACC), 0);
}
