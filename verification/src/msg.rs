//! The messages the engine accepts: the one-time creation message, the four
//! state-changing actions, and the read queries, together with the vote choice
//! and the proposal status they speak of.

use vstd::prelude::*;
use crate::expiration::{Duration, Expiration};
use crate::threshold::Threshold;

verus! {

/// The one-time creation message: the full voter set, the passing rule, and
/// the longest voting window a proposal may be given.
#[derive(Clone, Debug, PartialEq)]
pub struct InitMsg {
    pub voters: Vec<Voter>,
    pub threshold: Threshold,
    pub max_voting_period: Duration,
}

/// A registered participant: an opaque address and a fixed non-negative
/// weight. Weight zero is legal: such a voter may create proposals but can
/// never supply a deciding vote.
#[derive(Clone, Debug, PartialEq)]
pub struct Voter {
    pub addr: String,
    pub weight: u64,
}

impl Voter {
    /// A copy of the voter with the same address and weight.
    pub fn duplicate(&self) -> (r: Voter)
        ensures
            r == *self,
    {
        Voter { addr: self.addr.clone(), weight: self.weight }
    }
}

/// One voter's choice on one proposal.
#[derive(Clone, Copy, Debug, PartialEq, Eq, Structural)]
pub enum Vote {
    /// Marks support for the proposal.
    Yes,
    /// Marks opposition to the proposal.
    No,
    /// Marks participation but counts towards neither side.
    Abstain,
    /// Treated as a No vote in the pass/fail arithmetic; grants no special
    /// rejection power in this engine.
    Veto,
}

/// Where a proposal stands in its lifecycle.
#[derive(Clone, Copy, Debug, PartialEq, Eq, Structural)]
pub enum Status {
    /// Created, but voting has not yet begun; reserved for a future
    /// delayed-open feature and never entered by the operations here.
    Pending,
    /// Accepting ballots.
    Open,
    /// Voting is over and the proposal did not pass.
    Rejected,
    /// Voting is over and the proposal passed, but it has not yet executed.
    Passed,
    /// The proposal passed and its payload was dispatched.
    Executed,
}

/// A state-changing action.
#[derive(Clone, Debug, PartialEq)]
pub enum HandleMsg {
    /// Open a new proposal carrying an opaque payload; the creator's own Yes
    /// ballot is cast in the same step.
    Propose {
        title: String,
        description: String,
        msgs: Vec<Vec<u8>>,
        latest: Option<Expiration>,
    },
    /// Cast a ballot on an open proposal.
    Vote { proposal_id: u64, vote: Vote },
    /// Dispatch the payload of a passed proposal.
    Execute { proposal_id: u64 },
    /// Formally terminate an expired, never-decided proposal.
    Close { proposal_id: u64 },
}

/// A read query.
#[derive(Clone, Debug, PartialEq)]
pub enum QueryMsg {
    /// Returns the threshold summary.
    Threshold {},
    /// Returns one proposal by id.
    Proposal { proposal_id: u64 },
    /// Returns a page of proposals, ascending from an optional start id.
    ListProposals { start_after: Option<u64>, limit: Option<u32> },
    /// Returns a page of proposals, descending from an optional start id.
    ReverseProposals { start_before: Option<u64>, limit: Option<u32> },
    /// Returns one ballot by proposal id and voter address.
    Vote { proposal_id: u64, voter: String },
    /// Returns every ballot cast on a proposal.
    ListVotes { proposal_id: u64, start_after: Option<String>, limit: Option<u32> },
    /// Returns one voter's weight.
    Voter { address: String },
    /// Returns the full voter list.
    ListVoters { start_after: Option<String>, limit: Option<u32> },
}

} // verus!
