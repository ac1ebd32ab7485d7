use vstd::prelude::*;

use crate::allocator::{
    begin_reserve_spec, confirm_spec, entry_or_blank, finish_resolve_spec, invalidate_spec,
    reservable, ReserveStep,
};
use crate::cache::{EntryView, SeqState};
use crate::coordinator::{acquire_spec, settle_cache_spec, TxOutcome};
use crate::error::{AllocatorError, ChannelError, ResolveError};

verus! {

broadcast use vstd::multiset::group_multiset_properties;

/// Cache and numbers handed out after `n` requests for `a` in a row, where a request
/// told to resolve gets the chain's answer `answer`; requests that wait or fail add
/// no number.
pub open spec fn reserve_run(m: Map<u64, EntryView>, a: u64, n: nat, answer: u64) -> (
    Map<u64, EntryView>,
    Seq<u64>,
)
    decreases n,
{
    if n == 0 {
        (m, Seq::empty())
    } else {
        let (m1, s) = reserve_run(m, a, (n - 1) as nat, answer);
        let (m2, step) = begin_reserve_spec(m1, a);
        match step {
            Ok(ReserveStep::Reserved(v)) => (m2, s.push(v)),
            Ok(ReserveStep::Resolve) => {
                let (m3, r) = finish_resolve_spec(m2, a, Ok(answer));
                (
                    m3,
                    match r {
                        Ok(v) => s.push(v),
                        Err(_) => s,
                    },
                )
            },
            _ => (m2, s),
        }
    }
}

/// The first number a run of requests for `a` gets: the cached value where it is
/// usable, else the chain's answer.
pub open spec fn run_start(m: Map<u64, EntryView>, a: u64, answer: u64) -> u64 {
    if reservable(entry_or_blank(m, a).state) {
        entry_or_blank(m, a).value
    } else {
        answer
    }
}

/// The run `start, start + 1, ..., start + n - 1`.
pub open spec fn contiguous(start: u64, n: nat) -> Seq<u64> {
    Seq::new(n, |i: int| (start + i) as u64)
}

/// `n` requests for one account with no invalidation between them are handed
/// `v, v + 1, ..., v + n - 1`, where `v` is the cached value if it is usable and
/// the resolved value otherwise: pairwise distinct, in increasing order. The cache
/// then holds `v + n`, with `n` more reservations in flight.
pub proof fn lemma_reservations_contiguous(m: Map<u64, EntryView>, a: u64, n: nat, answer: u64)
    requires
        entry_or_blank(m, a).state != SeqState::Resolving,
        run_start(m, a, answer) + n <= u64::MAX,
    ensures
        reserve_run(m, a, n, answer).1 == contiguous(run_start(m, a, answer), n),
        reserve_run(m, a, n, answer).1.no_duplicates(),
        n > 0 ==> {
            let e = reserve_run(m, a, n, answer).0[a];
            &&& reserve_run(m, a, n, answer).0.contains_key(a)
            &&& e.state == SeqState::Reserved
            &&& e.value == run_start(m, a, answer) + n
            &&& e.pending.len() == entry_or_blank(m, a).pending.len() + n
        },
    decreases n,
{
    if n > 0 {
        lemma_reservations_contiguous(m, a, (n - 1) as nat, answer);
        assert(reserve_run(m, a, n, answer).1 =~= contiguous(run_start(m, a, answer), n));
    }
    let s = reserve_run(m, a, n, answer).1;
    assert forall|i: int, j: int| 0 <= i < s.len() && 0 <= j < s.len() && i != j implies s[i]
        != s[j] by {}
}

/// After the chain reports a sequence mismatch for `a`, the next request resolves the
/// account once: requests that come meanwhile wait rather than resolve again, the
/// chain's answer `v` is the number handed out, and the cache then holds `v + 1`.
pub proof fn lemma_invalidate_resolves_once(m: Map<u64, EntryView>, a: u64, seq: u64, v: u64)
    requires
        entry_or_blank(m, a).state != SeqState::Resolving,
        v < u64::MAX,
    ensures
        ({
            let m1 = invalidate_spec(m, a, seq);
            let (m2, step) = begin_reserve_spec(m1, a);
            let (m3, r) = finish_resolve_spec(m2, a, Ok::<u64, ResolveError>(v));
            &&& step == Ok::<ReserveStep, AllocatorError>(ReserveStep::Resolve)
            &&& begin_reserve_spec(m2, a) == (m2, Ok::<ReserveStep, AllocatorError>(
                ReserveStep::Wait,
            ))
            &&& r == Ok::<u64, AllocatorError>(v)
            &&& m3[a].value == v + 1
        }),
{
}

/// Settling a reservation releases exactly one reservation of that number, and none
/// where none is in flight: the number in flight never drops by more than one, and a
/// second settlement of a number reserved once changes nothing.
pub proof fn lemma_confirm_releases_once(
    m: Map<u64, EntryView>,
    a: u64,
    seq: u64,
    landed1: bool,
    landed2: bool,
)
    ensures
        ({
            let before = entry_or_blank(m, a).pending;
            let (m1, first) = confirm_spec(m, a, seq, landed1);
            let after = entry_or_blank(m1, a).pending;
            &&& first == (before.count(seq) > 0)
            &&& after == before.remove(seq)
            &&& after.len() == if first {
                before.len() - 1
            } else {
                before.len() as int
            }
            &&& before.count(seq) <= 1 ==> confirm_spec(m1, a, seq, landed2) == (m1, false)
        }),
{
    let before = entry_or_blank(m, a).pending;
    if !m.contains_key(a) {
        assert(before.remove(seq) =~= before);
    } else if before.count(seq) == 0 {
        assert(before.remove(seq) =~= before);
    }
}

/// A submission that gets a number and then fails at the channel layer leaves the
/// account's in-flight count where it was, and does not make the entry stale.
pub proof fn lemma_channel_failure_releases_slot(
    m: Map<u64, EntryView>,
    a: u64,
    supplied: u64,
    answer: u64,
    e: ChannelError,
)
    requires
        entry_or_blank(m, a).state != SeqState::Resolving,
        run_start(m, a, answer) < u64::MAX,
    ensures
        ({
            let (m1, step) = acquire_spec(true, m, a, supplied);
            let (m2, seq) = match step {
                Ok(ReserveStep::Reserved(v)) => (m1, v),
                _ => {
                    let (m3, r) = finish_resolve_spec(m1, a, Ok::<u64, ResolveError>(answer));
                    (m3, answer)
                },
            };
            let m4 = settle_cache_spec(true, m2, a, seq, TxOutcome::Channel(e));
            &&& entry_or_blank(m2, a).pending.len() == entry_or_blank(m, a).pending.len() + 1
            &&& entry_or_blank(m4, a).pending == entry_or_blank(m, a).pending
            &&& entry_or_blank(m4, a).state != SeqState::Stale
            &&& entry_or_blank(m4, a).value == seq + 1
        }),
{
    let (m1, step) = acquire_spec(true, m, a, supplied);
    let (m2, seq) = match step {
        Ok(ReserveStep::Reserved(v)) => (m1, v),
        _ => {
            let (m3, r) = finish_resolve_spec(m1, a, Ok::<u64, ResolveError>(answer));
            (m3, answer)
        },
    };
    let p = entry_or_blank(m2, a).pending;
    assert(p == entry_or_blank(m, a).pending.insert(seq));
    assert(p.remove(seq) =~= entry_or_blank(m, a).pending);
}

/// Cache after submissions in order, each given as account, caller-supplied number and
/// outcome; a submission that gets no number at once is dropped.
pub open spec fn submissions_run(
    manage: bool,
    m: Map<u64, EntryView>,
    subs: Seq<(u64, u64, TxOutcome)>,
) -> Map<u64, EntryView>
    decreases subs.len(),
{
    if subs.len() == 0 {
        m
    } else {
        let (a, supplied, outcome) = subs.last();
        let m1 = submissions_run(manage, m, subs.drop_last());
        let (m2, r) = acquire_spec(manage, m1, a, supplied);
        match r {
            Ok(ReserveStep::Reserved(seq)) => settle_cache_spec(manage, m2, a, seq, outcome),
            _ => m2,
        }
    }
}

/// Where sequencing is not managed, every submission uses its caller's number and no
/// number of submissions creates or changes a cache entry.
pub proof fn lemma_unmanaged_bypasses_cache(
    m: Map<u64, EntryView>,
    subs: Seq<(u64, u64, TxOutcome)>,
)
    ensures
        submissions_run(false, m, subs) == m,
        forall|i: int|
            0 <= i < subs.len() ==> #[trigger] acquire_spec(false, m, subs[i].0, subs[i].1) == (
                m,
                Ok::<ReserveStep, AllocatorError>(ReserveStep::Reserved(subs[i].1)),
            ),
    decreases subs.len(),
{
    if subs.len() > 0 {
        lemma_unmanaged_bypasses_cache(m, subs.drop_last());
    }
}

} // verus!
