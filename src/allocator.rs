use vstd::multiset::Multiset;
use vstd::prelude::*;

use crate::cache::{Entry, EntryView, SeqState, SequenceCache};
use crate::error::{AllocatorError, ResolveError};

verus! {

/// What a caller asking for a sequence number is to do next.
#[derive(Clone, Copy, Debug, PartialEq, Eq, Structural)]
pub enum ReserveStep {
    /// Use this sequence number.
    Reserved(u64),
    /// Ask the chain for the account's next sequence number and hand the answer to
    /// `finish_resolve`; this caller is the only one asking.
    Resolve,
    /// Another caller is asking the chain; try again once it has answered.
    Wait,
}

/// The entry of `a`, or a blank one where the cache has none.
pub open spec fn entry_or_blank(m: Map<u64, EntryView>, a: u64) -> EntryView {
    if m.contains_key(a) {
        m[a]
    } else {
        EntryView { value: 0, state: SeqState::Unknown, pending: Multiset::empty() }
    }
}

/// States in which the cached value can be handed out without asking the chain.
pub open spec fn reservable(s: SeqState) -> bool {
    s == SeqState::Fresh || s == SeqState::Ready || s == SeqState::Reserved || s
        == SeqState::Confirmed
}

/// The entry after its value was handed out.
pub open spec fn after_slot(e: EntryView) -> EntryView {
    EntryView {
        value: (e.value + 1) as u64,
        state: SeqState::Reserved,
        pending: e.pending.insert(e.value),
    }
}

/// Cache and answer after a request for a sequence number of `a`.
pub open spec fn begin_reserve_spec(m: Map<u64, EntryView>, a: u64) -> (
    Map<u64, EntryView>,
    Result<ReserveStep, AllocatorError>,
) {
    let e = entry_or_blank(m, a);
    if e.state == SeqState::Resolving {
        (m, Ok(ReserveStep::Wait))
    } else if !reservable(e.state) {
        (m.insert(a, EntryView { state: SeqState::Resolving, ..e }), Ok(ReserveStep::Resolve))
    } else if e.value == u64::MAX {
        (m, Err(AllocatorError::Exhausted))
    } else {
        (m.insert(a, after_slot(e)), Ok(ReserveStep::Reserved(e.value)))
    }
}

/// Cache and answer once the chain's answer `outcome` for `a` is known: on success the
/// entry is seeded with the resolved value, which is then handed out.
pub open spec fn finish_resolve_spec(
    m: Map<u64, EntryView>,
    a: u64,
    outcome: Result<u64, ResolveError>,
) -> (Map<u64, EntryView>, Result<u64, AllocatorError>) {
    let e = entry_or_blank(m, a);
    match outcome {
        Err(err) => (
            m.insert(a, EntryView { state: SeqState::Unknown, ..e }),
            Err(AllocatorError::Resolve(err)),
        ),
        Ok(v) => {
            let seeded = EntryView { value: v, state: SeqState::Fresh, pending: e.pending };
            if v == u64::MAX {
                (m.insert(a, seeded), Err(AllocatorError::Exhausted))
            } else {
                (m.insert(a, after_slot(seeded)), Ok(v))
            }
        },
    }
}

/// Cache after the reservation `seq` of `a` was settled without conflict, and whether
/// it was in flight. Settling a number that is not in flight changes nothing.
pub open spec fn confirm_spec(m: Map<u64, EntryView>, a: u64, seq: u64, landed: bool) -> (
    Map<u64, EntryView>,
    bool,
) {
    if m.contains_key(a) && m[a].pending.count(seq) > 0 {
        let e = m[a];
        let p = e.pending.remove(seq);
        let st = if e.state == SeqState::Reserved && p.len() == 0 {
            if landed {
                SeqState::Confirmed
            } else {
                SeqState::Ready
            }
        } else {
            e.state
        };
        (m.insert(a, EntryView { value: e.value, state: st, pending: p }), true)
    } else {
        (m, false)
    }
}

/// Cache after the chain rejected a submission of `a` for a sequence mismatch: the entry
/// turns stale (unless a resolution is already under way) and `seq` is no longer in flight.
pub open spec fn invalidate_spec(m: Map<u64, EntryView>, a: u64, seq: u64) -> Map<u64, EntryView> {
    if m.contains_key(a) {
        let e = m[a];
        let st = if e.state == SeqState::Resolving {
            SeqState::Resolving
        } else {
            SeqState::Stale
        };
        m.insert(a, EntryView { value: e.value, state: st, pending: e.pending.remove(seq) })
    } else {
        m
    }
}

/// Hands out one sequence number per submission attempt, in increasing order per
/// account, and folds the outcomes back into the cache.
pub struct SequenceAllocator {
    cache: SequenceCache,
}

impl View for SequenceAllocator {
    type V = Map<u64, EntryView>;

    closed spec fn view(&self) -> Map<u64, EntryView> {
        self.cache@
    }
}

impl SequenceAllocator {
    /// An allocator with an empty cache.
    pub fn new() -> (r: SequenceAllocator)
        ensures
            r@ == Map::<u64, EntryView>::empty(),
    {
        SequenceAllocator { cache: SequenceCache::new() }
    }

    /// The cache behind this allocator.
    pub fn cache(&self) -> (r: &SequenceCache)
        ensures
            r@ == self@,
    {
        &self.cache
    }

    /// Number of reservations of `account` issued and not yet settled.
    pub fn in_flight_count(&self, account: u64) -> (r: usize)
        ensures
            r == entry_or_blank(self@, account).pending.len(),
    {
        match self.cache.get(account) {
            Some(e) => e.in_flight_count(),
            None => 0,
        }
    }

    /// Takes the entry of `account` out of the cache, or a blank one.
    fn take_or_blank(&mut self, account: u64) -> (r: Entry)
        ensures
            final(self)@ == old(self)@.remove(account),
            r@ == entry_or_blank(old(self)@, account),
    {
        match self.cache.take(account) {
            Some(e) => e,
            None => Entry::blank(SeqState::Unknown),
        }
    }

    /// Asks for a sequence number of `account`. Where the cache holds a usable value it
    /// is handed out and advanced; where it holds none, or a stale one, the caller is told
    /// to resolve it, and callers that come while a resolution is under way are told to wait.
    pub fn begin_reserve(&mut self, account: u64) -> (r: Result<ReserveStep, AllocatorError>)
        ensures
            (final(self)@, r) == begin_reserve_spec(old(self)@, account),
    {
        let ghost m = self@;
        let mut e = self.take_or_blank(account);
        let st = e.state();
        if st == SeqState::Resolving {
            self.cache.put(account, e);
            assert(self@ =~= m);
            Ok(ReserveStep::Wait)
        } else if st == SeqState::Unknown || st == SeqState::Stale {
            e.set_state(SeqState::Resolving);
            self.cache.put(account, e);
            assert(self@ =~= m.insert(account, EntryView { state: SeqState::Resolving, ..entry_or_blank(m, account) }));
            Ok(ReserveStep::Resolve)
        } else if e.value() == u64::MAX {
            self.cache.put(account, e);
            assert(self@ =~= m);
            Err(AllocatorError::Exhausted)
        } else {
            let v = e.take_slot();
            self.cache.put(account, e);
            assert(self@ =~= m.insert(account, after_slot(entry_or_blank(m, account))));
            Ok(ReserveStep::Reserved(v))
        }
    }

    /// Hands the chain's answer for `account` to the allocator. On success the entry is
    /// seeded with the resolved value, which is handed out to this caller; on failure the
    /// entry is left unresolved and the error is passed on.
    pub fn finish_resolve(&mut self, account: u64, outcome: Result<u64, ResolveError>) -> (r:
        Result<u64, AllocatorError>)
        ensures
            (final(self)@, r) == finish_resolve_spec(old(self)@, account, outcome),
    {
        let ghost m = self@;
        let mut e = self.take_or_blank(account);
        match outcome {
            Err(err) => {
                e.set_state(SeqState::Unknown);
                self.cache.put(account, e);
                assert(self@ =~= finish_resolve_spec(m, account, outcome).0);
                Err(AllocatorError::Resolve(err))
            },
            Ok(v) => {
                e.reseed(v);
                if v == u64::MAX {
                    self.cache.put(account, e);
                    assert(self@ =~= finish_resolve_spec(m, account, outcome).0);
                    Err(AllocatorError::Exhausted)
                } else {
                    let s = e.take_slot();
                    self.cache.put(account, e);
                    assert(self@ =~= finish_resolve_spec(m, account, outcome).0);
                    Ok(s)
                }
            },
        }
    }

    /// Settles the reservation `seq` of `account` without conflict (`landed` tells
    /// whether the chain accepted it). Returns whether `seq` was in flight: a second
    /// settlement of the same number changes nothing.
    pub fn confirm(&mut self, account: u64, seq: u64, landed: bool) -> (r: bool)
        ensures
            (final(self)@, r) == confirm_spec(old(self)@, account, seq, landed),
    {
        let ghost m = self@;
        match self.cache.take(account) {
            None => {
                assert(self@ =~= m);
                false
            },
            Some(mut e) => {
                let ghost before = e@;
                let was = e.release(seq);
                if !was {
                    assert(before.pending.remove(seq) =~= before.pending);
                    self.cache.put(account, e);
                    assert(self@ =~= m);
                    return false;
                }
                if e.state() == SeqState::Reserved && e.is_idle() {
                    if landed {
                        e.set_state(SeqState::Confirmed);
                    } else {
                        e.set_state(SeqState::Ready);
                    }
                }
                self.cache.put(account, e);
                assert(self@ =~= confirm_spec(m, account, seq, landed).0);
                true
            },
        }
    }

    /// Records that the chain rejected the submission `seq` of `account` for a sequence
    /// mismatch: the next request for the account resolves it anew.
    pub fn invalidate(&mut self, account: u64, seq: u64)
        ensures
            final(self)@ == invalidate_spec(old(self)@, account, seq),
    {
        let ghost m = self@;
        match self.cache.take(account) {
            None => {
                assert(self@ =~= m);
            },
            Some(mut e) => {
                e.release(seq);
                if e.state() != SeqState::Resolving {
                    e.set_state(SeqState::Stale);
                }
                self.cache.put(account, e);
                assert(self@ =~= invalidate_spec(m, account, seq));
            },
        }
    }
}

} // verus!
