//! The shapes in which read queries report state: single items, lists, and
//! the tagged union the query dispatcher returns.

use vstd::prelude::*;
use crate::expiration::Expiration;
use crate::msg::{Status, Vote, Voter};
use crate::threshold::ThresholdResponse;

verus! {

/// One proposal, as reported to a reader. The status is the last persisted
/// one: a proposal whose window elapsed since it was last touched still reads
/// `Open` until a vote or a close formally moves it.
#[derive(Clone, Debug, PartialEq)]
pub struct ProposalResponse {
    pub id: u64,
    pub title: String,
    pub description: String,
    pub msgs: Vec<Vec<u8>>,
    pub status: Status,
    pub expires: Expiration,
    pub threshold: ThresholdResponse,
}

/// A page of proposals.
#[derive(Clone, Debug, PartialEq)]
pub struct ProposalListResponse {
    pub proposals: Vec<ProposalResponse>,
}

/// One cast ballot, as reported to a reader.
#[derive(Clone, Debug, PartialEq)]
pub struct VoteInfo {
    pub proposal_id: u64,
    pub voter: String,
    pub vote: Vote,
    pub weight: u64,
}

/// One voter's ballot on one proposal, if they cast one.
#[derive(Clone, Debug, PartialEq)]
pub struct VoteResponse {
    pub vote: Option<VoteInfo>,
}

/// Every ballot cast on one proposal.
#[derive(Clone, Debug, PartialEq)]
pub struct VoteListResponse {
    pub votes: Vec<VoteInfo>,
}

/// One voter's weight, if the address is registered.
#[derive(Clone, Debug, PartialEq)]
pub struct VoterResponse {
    pub weight: Option<u64>,
}

/// The full voter registry.
#[derive(Clone, Debug, PartialEq)]
pub struct VoterListResponse {
    pub voters: Vec<Voter>,
}

/// What the query dispatcher returns: one variant per query.
#[derive(Clone, Debug, PartialEq)]
pub enum QueryAnswer {
    Threshold(ThresholdResponse),
    Proposal(ProposalResponse),
    ProposalList(ProposalListResponse),
    Vote(VoteResponse),
    VoteList(VoteListResponse),
    Voter(VoterResponse),
    VoterList(VoterListResponse),
}

} // verus!
