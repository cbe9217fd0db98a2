//! Commitment levels and per-request context configuration: the caller's
//! required confidence level for a query, and the optional wrapper carrying
//! it together with a minimum-context-slot requirement.

use vstd::prelude::*;

verus! {

/// The caller's required confidence level for a result.
#[derive(Clone, Copy, Debug, PartialEq, Eq, Structural)]
pub enum CommitmentLevel {
    /// The block has been processed but may still be rolled back.
    Processed,
    /// The block has been voted on by a supermajority.
    Confirmed,
    /// The block is finalized and cannot be rolled back.
    Finalized,
}

/// A commitment level as carried in request parameters.
#[derive(Clone, Copy, Debug, PartialEq, Eq, Structural)]
pub struct CommitmentConfig {
    pub commitment: CommitmentLevel,
}

/// Whether a commitment level is confirmed or stronger.
pub open spec fn at_least_confirmed(c: CommitmentConfig) -> bool {
    c.commitment == CommitmentLevel::Confirmed || c.commitment == CommitmentLevel::Finalized
}

impl CommitmentConfig {
    pub fn processed() -> (r: Self)
        ensures
            r.commitment == CommitmentLevel::Processed,
    {
        CommitmentConfig { commitment: CommitmentLevel::Processed }
    }

    pub fn confirmed() -> (r: Self)
        ensures
            r.commitment == CommitmentLevel::Confirmed,
    {
        CommitmentConfig { commitment: CommitmentLevel::Confirmed }
    }

    pub fn finalized() -> (r: Self)
        ensures
            r.commitment == CommitmentLevel::Finalized,
    {
        CommitmentConfig { commitment: CommitmentLevel::Finalized }
    }

    /// Whether this commitment is confirmed or stronger.
    pub fn is_at_least_confirmed(&self) -> (r: bool)
        ensures
            r == at_least_confirmed(*self),
    {
        match self.commitment {
            CommitmentLevel::Confirmed => true,
            CommitmentLevel::Finalized => true,
            CommitmentLevel::Processed => false,
        }
    }
}

impl Default for CommitmentLevel {
    /// The strongest level is assumed when the caller names none.
    fn default() -> (r: Self)
        ensures
            r == CommitmentLevel::Finalized,
    {
        CommitmentLevel::Finalized
    }
}

impl Default for CommitmentConfig {
    fn default() -> (r: Self)
        ensures
            r.commitment == CommitmentLevel::Finalized,
    {
        CommitmentConfig { commitment: CommitmentLevel::Finalized }
    }
}

/// Optional per-request context: a commitment level and a minimum context
/// slot the responding node must have reached.
#[derive(Clone, Copy, Debug, PartialEq, Eq, Structural)]
pub struct RpcContextConfig {
    pub commitment: Option<CommitmentConfig>,
    pub min_context_slot: Option<u64>,
}

impl Default for RpcContextConfig {
    fn default() -> (r: Self)
        ensures
            r.commitment is None,
            r.min_context_slot is None,
    {
        RpcContextConfig { commitment: None, min_context_slot: None }
    }
}

/// The commitment a request is held to: the one its context names, or the
/// default when the context or its commitment is absent.
pub open spec fn effective_commitment(config: Option<RpcContextConfig>) -> CommitmentConfig {
    match config {
        Some(c) => match c.commitment {
            Some(cc) => cc,
            None => CommitmentConfig { commitment: CommitmentLevel::Finalized },
        },
        None => CommitmentConfig { commitment: CommitmentLevel::Finalized },
    }
}

/// The commitment a request is held to when it carries a bare commitment
/// parameter rather than a context.
pub open spec fn effective_commitment_only(commitment: Option<CommitmentConfig>) -> CommitmentConfig {
    match commitment {
        Some(c) => c,
        None => CommitmentConfig { commitment: CommitmentLevel::Finalized },
    }
}

} // verus!
