use vstd::prelude::*;

verus! {

/// Timeout applied to node requests when none is configured, in milliseconds.
pub const DEFAULT_TIMEOUT_MS: u64 = 2000;

/// Timeout applied to node requests when none is configured, in milliseconds.
pub fn default_timeout() -> (r: u64)
    ensures
        r == DEFAULT_TIMEOUT_MS,
{
    DEFAULT_TIMEOUT_MS
}

/// Sequence numbers are managed by the client unless configured otherwise.
pub fn default_manage_sequencing() -> (r: bool)
    ensures
        r,
{
    true
}

/// Identifier of the chain that transactions are built for.
#[derive(Clone, Debug, PartialEq, Eq)]
pub struct ChainId(pub String);

/// Denomination in which fees are paid.
#[derive(Clone, Debug, PartialEq, Eq)]
pub struct Denom(pub String);

/// Configuration of a node client.
#[derive(Clone, Debug)]
pub struct NodeConfig {
    /// Node endpoint.
    pub endpoint: String,
    /// Timeout applied to requests, in milliseconds.
    pub timeout: u64,
    /// Chain that transactions are built for.
    pub chain_id: ChainId,
    /// Fee denomination.
    pub fee_denom: Denom,
    /// Whether the client manages transaction sequence numbers itself, by querying the
    /// chain for an account's next number and counting locally, or the caller supplies
    /// them.
    pub manage_sequencing: bool,
}

impl NodeConfig {
    /// A configuration with the default timeout and managed sequencing.
    pub fn new(endpoint: String, chain_id: ChainId, fee_denom: Denom) -> (r: NodeConfig)
        ensures
            r.endpoint == endpoint,
            r.chain_id == chain_id,
            r.fee_denom == fee_denom,
            r.timeout == DEFAULT_TIMEOUT_MS,
            r.manage_sequencing,
    {
        NodeConfig {
            endpoint,
            timeout: default_timeout(),
            chain_id,
            fee_denom,
            manage_sequencing: default_manage_sequencing(),
        }
    }
}

} // verus!
