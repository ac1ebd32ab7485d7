use vstd::multiset::Multiset;
use vstd::prelude::*;
use std::collections::HashMap;

verus! {

broadcast use {vstd::std_specs::hash::group_hash_axioms, vstd::seq_lib::group_to_multiset_ensures};

/// Confidence in an account's cached sequence number.
#[derive(Clone, Copy, Debug, PartialEq, Eq, Structural)]
pub enum SeqState {
    /// Nothing trustworthy is known; the chain must be asked.
    Unknown,
    /// One caller is asking the chain; the others wait for its answer.
    Resolving,
    /// Just learned from the chain and not used yet.
    Fresh,
    /// Usable again after every reservation was released without landing.
    Ready,
    /// Handed to at least one submission still in flight.
    Reserved,
    /// The last reservation in flight was accepted by the chain.
    Confirmed,
    /// The chain reported a sequence mismatch; the chain must be asked again.
    Stale,
}

/// What the cache knows of one account.
pub struct EntryView {
    /// The next sequence number to hand out.
    pub value: u64,
    pub state: SeqState,
    /// The reservations issued and not yet settled, one element per reservation: a
    /// number handed out again after a re-resolution counts twice.
    pub pending: Multiset<u64>,
}

/// One account's cached sequence number, its state and its reservations in flight.
pub struct Entry {
    value: u64,
    state: SeqState,
    pending: Vec<u64>,
}

impl View for Entry {
    type V = EntryView;

    closed spec fn view(&self) -> EntryView {
        EntryView { value: self.value, state: self.state, pending: self.pending@.to_multiset() }
    }
}

impl Entry {
    /// An entry with nothing known, nothing in flight, in the given state.
    pub fn blank(state: SeqState) -> (r: Entry)
        ensures
            r@ == (EntryView { value: 0, state, pending: Multiset::empty() }),
    {
        let r = Entry { value: 0, state, pending: Vec::new() };
        assert(r.pending@.to_multiset().len() == 0);
        assert(r.pending@.to_multiset() =~= Multiset::<u64>::empty());
        r
    }

    pub fn value(&self) -> (r: u64)
        ensures
            r == self@.value,
    {
        self.value
    }

    pub fn state(&self) -> (r: SeqState)
        ensures
            r == self@.state,
    {
        self.state
    }

    /// Number of reservations issued and not yet settled.
    pub fn in_flight_count(&self) -> (r: usize)
        ensures
            r == self@.pending.len(),
    {
        self.pending.len()
    }

    /// Whether a reservation of `seq` is in flight.
    pub fn is_pending(&self, seq: u64) -> (r: bool)
        ensures
            r == (self@.pending.count(seq) > 0),
    {
        self.find(seq).is_some()
    }

    fn find(&self, seq: u64) -> (r: Option<usize>)
        ensures
            match r {
                Some(i) => i < self.pending@.len() && self.pending@[i as int] == seq,
                None => !self.pending@.contains(seq),
            },
            r.is_some() == (self@.pending.count(seq) > 0),
    {
        let mut i: usize = 0;
        while i < self.pending.len()
            invariant
                i <= self.pending@.len(),
                forall|k: int| 0 <= k < i ==> self.pending@[k] != seq,
            decreases self.pending@.len() - i,
        {
            if self.pending[i] == seq {
                assert(self.pending@.contains(seq));
                return Some(i);
            }
            i = i + 1;
        }
        None
    }

    pub fn set_state(&mut self, state: SeqState)
        ensures
            final(self)@ == (EntryView { state, ..old(self)@ }),
    {
        self.state = state;
    }

    /// Takes the authoritative next sequence number from the chain; reservations in
    /// flight stay recorded.
    pub fn reseed(&mut self, value: u64)
        ensures
            final(self)@ == (EntryView { value, state: SeqState::Fresh, pending: old(self)@.pending }),
    {
        self.value = value;
        self.state = SeqState::Fresh;
    }

    /// Hands out the current value, records one more reservation of it and advances
    /// past it.
    pub fn take_slot(&mut self) -> (r: u64)
        requires
            old(self)@.value < u64::MAX,
        ensures
            r == old(self)@.value,
            final(self)@ == (EntryView {
                value: (old(self)@.value + 1) as u64,
                state: SeqState::Reserved,
                pending: old(self)@.pending.insert(old(self)@.value),
            }),
            final(self)@.pending.len() == old(self)@.pending.len() + 1,
    {
        let r = self.value;
        self.pending.push(r);
        self.value = r + 1;
        self.state = SeqState::Reserved;
        r
    }

    /// Settles one reservation of `seq`; returns whether one was in flight.
    pub fn release(&mut self, seq: u64) -> (r: bool)
        ensures
            r == (old(self)@.pending.count(seq) > 0),
            final(self)@ == (EntryView { pending: old(self)@.pending.remove(seq), ..old(self)@ }),
    {
        match self.find(seq) {
            Some(i) => {
                self.pending.remove(i);
                true
            },
            None => {
                assert(self@.pending.remove(seq) =~= self@.pending);
                false
            },
        }
    }

    /// Whether no reservation is in flight.
    pub fn is_idle(&self) -> (r: bool)
        ensures
            r == (self@.pending.len() == 0),
    {
        self.pending.len() == 0
    }
}

/// Per-account entries of one client, keyed by account identifier.
pub struct SequenceCache {
    entries: HashMap<u64, Entry>,
}

impl View for SequenceCache {
    type V = Map<u64, EntryView>;

    closed spec fn view(&self) -> Map<u64, EntryView> {
        Map::new(|k: u64| self.entries@.contains_key(k), |k: u64| self.entries@[k]@)
    }
}

impl SequenceCache {
    /// A cache with no entry.
    pub fn new() -> (r: SequenceCache)
        ensures
            r@ == Map::<u64, EntryView>::empty(),
    {
        let r = SequenceCache { entries: HashMap::new() };
        assert(r@ =~= Map::<u64, EntryView>::empty());
        r
    }

    /// Looks up the entry of `account`, without side effects.
    pub fn get(&self, account: u64) -> (r: Option<&Entry>)
        ensures
            match r {
                Some(e) => self@.contains_key(account) && e@ == self@[account],
                None => !self@.contains_key(account),
            },
    {
        self.entries.get(&account)
    }

    /// Removes the entry of `account` and hands it over.
    pub fn take(&mut self, account: u64) -> (r: Option<Entry>)
        ensures
            final(self)@ == old(self)@.remove(account),
            match r {
                Some(e) => old(self)@.contains_key(account) && e@ == old(self)@[account],
                None => !old(self)@.contains_key(account),
            },
    {
        let r = self.entries.remove(&account);
        assert(self@ =~= old(self)@.remove(account));
        r
    }

    /// Sets the entry of `account`, overwriting any earlier one.
    pub fn put(&mut self, account: u64, entry: Entry)
        ensures
            final(self)@ == old(self)@.insert(account, entry@),
    {
        self.entries.insert(account, entry);
        assert(self@ =~= old(self)@.insert(account, entry@));
    }

    /// Marks the entry of `account` stale; does nothing where there is none.
    pub fn mark_stale(&mut self, account: u64)
        ensures
            final(self)@ == (if old(self)@.contains_key(account) {
                old(self)@.insert(
                    account,
                    EntryView { state: SeqState::Stale, ..old(self)@[account] },
                )
            } else {
                old(self)@
            }),
    {
        match self.take(account) {
            Some(mut e) => {
                e.set_state(SeqState::Stale);
                self.put(account, e);
                assert(self@ =~= old(self)@.insert(
                    account,
                    EntryView { state: SeqState::Stale, ..old(self)@[account] },
                ));
            },
            None => {
                assert(self@ =~= old(self)@);
            },
        }
    }
}

} // verus!
