use vstd::prelude::*;

use crate::allocator::{
    begin_reserve_spec, confirm_spec, finish_resolve_spec, invalidate_spec, ReserveStep,
    SequenceAllocator,
};
use crate::cache::EntryView;
use crate::config::NodeConfig;
use crate::error::{AllocatorError, ChannelError, ResolveError, SubmitError};

verus! {

/// How the node answered one submitted transaction.
#[derive(Clone, Debug, PartialEq, Eq)]
pub enum TxOutcome {
    /// The chain accepted the transaction.
    Accepted,
    /// The channel failed before an answer came; the transaction may still land.
    Channel(ChannelError),
    /// The chain rejected the transaction's sequence number.
    SequenceMismatch,
    /// The chain rejected the transaction for another reason, given here.
    Rejected(String),
}

/// What a submission that ended with `outcome` reports to its caller.
pub open spec fn outcome_result(outcome: TxOutcome) -> Result<(), SubmitError> {
    match outcome {
        TxOutcome::Accepted => Ok(()),
        TxOutcome::Channel(e) => Err(SubmitError::Channel(e)),
        TxOutcome::SequenceMismatch => Err(SubmitError::SequenceConflict),
        TxOutcome::Rejected(reason) => Err(SubmitError::Rejected(reason)),
    }
}

/// Cache and answer when a submission for `a` asks for its sequence number; `supplied`
/// is the caller's own number, used as it is where sequencing is not managed.
pub open spec fn acquire_spec(manage: bool, m: Map<u64, EntryView>, a: u64, supplied: u64) -> (
    Map<u64, EntryView>,
    Result<ReserveStep, AllocatorError>,
) {
    if manage {
        begin_reserve_spec(m, a)
    } else {
        (m, Ok(ReserveStep::Reserved(supplied)))
    }
}

/// Cache and answer once the chain's answer to a resolution for `a` is known.
pub open spec fn resolved_spec(
    manage: bool,
    m: Map<u64, EntryView>,
    a: u64,
    outcome: Result<u64, ResolveError>,
) -> (Map<u64, EntryView>, Result<u64, SubmitError>) {
    if manage {
        let (m2, r) = finish_resolve_spec(m, a, outcome);
        (
            m2,
            match r {
                Ok(v) => Ok(v),
                Err(e) => Err(SubmitError::Allocator(e)),
            },
        )
    } else {
        (
            m,
            match outcome {
                Ok(v) => Ok(v),
                Err(e) => Err(SubmitError::Allocator(AllocatorError::Resolve(e))),
            },
        )
    }
}

/// Cache after the submission `seq` of `a` ended with `outcome`: a sequence mismatch
/// invalidates the entry; any other outcome releases the reservation, a channel failure
/// included, since the chain's state is then unknown rather than known to be wrong.
pub open spec fn settle_cache_spec(
    manage: bool,
    m: Map<u64, EntryView>,
    a: u64,
    seq: u64,
    outcome: TxOutcome,
) -> Map<u64, EntryView> {
    if !manage {
        m
    } else {
        match outcome {
            TxOutcome::SequenceMismatch => invalidate_spec(m, a, seq),
            TxOutcome::Accepted => confirm_spec(m, a, seq, true).0,
            _ => confirm_spec(m, a, seq, false).0,
        }
    }
}

/// Runs the sequencing side of transaction submissions: which number each one
/// uses, and what its outcome does to the account's cached sequence.
pub struct SubmissionCoordinator {
    manage_sequencing: bool,
    allocator: SequenceAllocator,
}

impl View for SubmissionCoordinator {
    type V = Map<u64, EntryView>;

    closed spec fn view(&self) -> Map<u64, EntryView> {
        self.allocator@
    }
}

impl SubmissionCoordinator {
    /// Whether sequence numbers are managed here rather than supplied by callers.
    pub closed spec fn manages(&self) -> bool {
        self.manage_sequencing
    }

    /// A coordinator with an empty cache, managing sequence numbers as `config` says.
    pub fn new(config: &NodeConfig) -> (r: SubmissionCoordinator)
        ensures
            r.manages() == config.manage_sequencing,
            r@ == Map::<u64, EntryView>::empty(),
    {
        SubmissionCoordinator {
            manage_sequencing: config.manage_sequencing,
            allocator: SequenceAllocator::new(),
        }
    }

    pub fn manage_sequencing(&self) -> (r: bool)
        ensures
            r == self.manages(),
    {
        self.manage_sequencing
    }

    /// The allocator behind this coordinator.
    pub fn allocator(&self) -> (r: &SequenceAllocator)
        ensures
            r@ == self@,
    {
        &self.allocator
    }

    /// The sequence number a submission for `account` is to use, or what to do first.
    /// Where sequencing is not managed, `supplied` is used and the cache is not touched.
    pub fn acquire(&mut self, account: u64, supplied: u64) -> (r: Result<
        ReserveStep,
        AllocatorError,
    >)
        ensures
            final(self).manages() == old(self).manages(),
            (final(self)@, r) == acquire_spec(old(self).manages(), old(self)@, account, supplied),
    {
        if self.manage_sequencing {
            self.allocator.begin_reserve(account)
        } else {
            Ok(ReserveStep::Reserved(supplied))
        }
    }

    /// Hands the chain's answer to a resolution for `account` over, as `acquire` asked.
    pub fn resolved(&mut self, account: u64, outcome: Result<u64, ResolveError>) -> (r: Result<
        u64,
        SubmitError,
    >)
        ensures
            final(self).manages() == old(self).manages(),
            (final(self)@, r) == resolved_spec(old(self).manages(), old(self)@, account, outcome),
    {
        if self.manage_sequencing {
            match self.allocator.finish_resolve(account, outcome) {
                Ok(v) => Ok(v),
                Err(e) => Err(SubmitError::Allocator(e)),
            }
        } else {
            match outcome {
                Ok(v) => Ok(v),
                Err(e) => Err(SubmitError::Allocator(AllocatorError::Resolve(e))),
            }
        }
    }

    /// Folds how the submission `seq` of `account` ended back into the cache, and says
    /// what the submission reports to its caller.
    pub fn settle(&mut self, account: u64, seq: u64, outcome: TxOutcome) -> (r: Result<
        (),
        SubmitError,
    >)
        ensures
            final(self).manages() == old(self).manages(),
            final(self)@ == settle_cache_spec(old(self).manages(), old(self)@, account, seq, outcome),
            r == outcome_result(outcome),
    {
        match outcome {
            TxOutcome::Accepted => {
                if self.manage_sequencing {
                    self.allocator.confirm(account, seq, true);
                }
                Ok(())
            },
            TxOutcome::Channel(e) => {
                if self.manage_sequencing {
                    self.allocator.confirm(account, seq, false);
                }
                Err(SubmitError::Channel(e))
            },
            TxOutcome::SequenceMismatch => {
                if self.manage_sequencing {
                    self.allocator.invalidate(account, seq);
                }
                Err(SubmitError::SequenceConflict)
            },
            TxOutcome::Rejected(reason) => {
                if self.manage_sequencing {
                    self.allocator.confirm(account, seq, false);
                }
                Err(SubmitError::Rejected(reason))
            },
        }
    }
}

} // verus!
