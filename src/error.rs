use vstd::prelude::*;

verus! {

/// Failure of one call through the timeout-bounded request channel.
#[derive(Clone, Copy, Debug, PartialEq, Eq, Structural)]
pub enum ChannelError {
    /// No response arrived within the configured timeout.
    Timeout,
    /// The connection to the node failed.
    Transport,
}

/// Failure to learn an account's next sequence number from the node.
///
/// An account that the chain does not know yet is reported as `AccountNotFound`
/// rather than taken to start at sequence 0: the account has to exist on chain
/// (be funded) before it can sign anything.
#[derive(Clone, Copy, Debug, PartialEq, Eq, Structural)]
pub enum ResolveError {
    /// The chain reports no such account.
    AccountNotFound,
    /// The query did not complete.
    Channel(ChannelError),
}

/// Failure to hand out a sequence number.
#[derive(Clone, Copy, Debug, PartialEq, Eq, Structural)]
pub enum AllocatorError {
    /// Resolution from the chain failed; the entry is left unresolved.
    Resolve(ResolveError),
    /// The account's next sequence number is `u64::MAX`, past which no number exists.
    Exhausted,
}

/// Failure of one transaction submission.
#[derive(Clone, Debug, PartialEq, Eq)]
pub enum SubmitError {
    /// The submission was lost at the channel layer: it may or may not have landed.
    Channel(ChannelError),
    /// The chain rejected the sequence number; the account is re-resolved on the next try.
    SequenceConflict,
    /// The chain rejected the transaction for another reason, given here.
    Rejected(String),
    /// No sequence number could be handed out.
    Allocator(AllocatorError),
}

} // verus!
