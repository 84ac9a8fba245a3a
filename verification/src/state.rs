//! The persisted shapes of the engine: the process-wide configuration, the
//! weighted vote tally, a single ballot, and a proposal together with its
//! status-refresh algorithm.

use vstd::prelude::*;
use crate::expiration::{BlockInfo, Duration, Expiration};
use crate::msg::{Status, Vote};
use crate::threshold::{spec_votes_needed, votes_needed, Threshold, ThresholdError};

verus! {

/// The process-wide configuration, set once at creation and immutable
/// thereafter.
#[derive(Clone, Copy, Debug, PartialEq, Eq, Structural)]
pub struct Config {
    pub threshold: Threshold,
    pub total_weight: u64,
    pub max_voting_period: Duration,
}

/// A per-proposal tally: total weight cast for each vote choice. Buckets only
/// ever grow as ballots are cast; they never decrease.
#[derive(Clone, Copy, Debug, PartialEq, Eq, Structural)]
pub struct Votes {
    pub yes: u64,
    pub no: u64,
    pub abstain: u64,
    pub veto: u64,
}

impl Votes {
    /// The total weight cast, over all four choices.
    pub open spec fn spec_total(self) -> int {
        self.yes + self.no + self.abstain + self.veto
    }

    /// The tally with `weight` added to the bucket for `vote`.
    pub open spec fn spec_add(self, vote: Vote, weight: u64) -> Votes {
        match vote {
            Vote::Yes => Votes { yes: (self.yes + weight) as u64, ..self },
            Vote::No => Votes { no: (self.no + weight) as u64, ..self },
            Vote::Abstain => Votes { abstain: (self.abstain + weight) as u64, ..self },
            Vote::Veto => Votes { veto: (self.veto + weight) as u64, ..self },
        }
    }

    /// The tally a proposal starts with: the proposer's own Yes vote, already
    /// counted.
    pub fn yes(init_weight: u64) -> (v: Votes)
        ensures
            v == (Votes { yes: init_weight, no: 0, abstain: 0, veto: 0 }),
    {
        Votes { yes: init_weight, no: 0, abstain: 0, veto: 0 }
    }

    /// Adds `weight` to the bucket for `vote`: pure accumulation, no removal.
    pub fn add_vote(&mut self, vote: Vote, weight: u64)
        requires
            old(self).spec_total() + weight <= u64::MAX,
        ensures
            *final(self) == old(self).spec_add(vote, weight),
    {
        match vote {
            Vote::Yes => self.yes = self.yes + weight,
            Vote::No => self.no = self.no + weight,
            Vote::Abstain => self.abstain = self.abstain + weight,
            Vote::Veto => self.veto = self.veto + weight,
        }
    }

    /// The total weight cast, over all four choices.
    pub fn total(&self) -> (t: u64)
        requires
            self.spec_total() <= u64::MAX,
        ensures
            t == self.spec_total(),
    {
        self.yes + self.no + self.abstain + self.veto
    }
}

/// One voter's immutable record on one proposal: the choice, and the weight
/// captured at cast time.
#[derive(Clone, Copy, Debug, PartialEq, Eq, Structural)]
pub struct Ballot {
    pub weight: u64,
    pub vote: Vote,
}

/// A single vote-able item: its text, its opaque payload, its voting window,
/// its live tally, and a snapshot of the passing rule and total weight taken
/// from the configuration at creation time.
#[derive(Clone, Debug, PartialEq)]
pub struct Proposal {
    pub title: String,
    pub description: String,
    pub start_height: u64,
    pub expires: Expiration,
    pub msgs: Vec<Vec<u8>>,
    pub status: Status,
    pub votes: Votes,
    pub threshold: Threshold,
    pub total_weight: u64,
}

impl Proposal {
    /// The tally is consistent with the snapshot it is measured against: no
    /// more weight is cast than exists, and the snapshotted rule passed
    /// validation.
    pub open spec fn tally_wf(self) -> bool {
        &&& self.votes.spec_total() <= self.total_weight
        &&& self.threshold.spec_validate(self.total_weight) == Ok::<(), ThresholdError>(())
    }

    /// The configured rule is satisfied by the current tally.
    pub open spec fn spec_is_passed(self) -> bool {
        match self.threshold {
            Threshold::AbsoluteCount { weight } => self.votes.yes >= weight,
            Threshold::AbsolutePercentage { percentage } => self.votes.yes >= spec_votes_needed(
                self.total_weight as int,
                percentage,
            ),
            Threshold::ThresholdQuorum { threshold, quorum } => {
                let opinions = self.votes.yes + self.votes.no + self.votes.veto;
                &&& self.votes.spec_total() >= spec_votes_needed(self.total_weight as int, quorum)
                &&& self.votes.yes >= spec_votes_needed(opinions, threshold)
            },
        }
    }

    /// Passing has become mathematically impossible: even if every uncommitted
    /// voter voted Yes, the rule could no longer be satisfied. This is what
    /// permits rejection before the voting window elapses.
    pub open spec fn spec_is_rejected(self) -> bool {
        match self.threshold {
            Threshold::AbsoluteCount { weight } => self.total_weight - self.votes.no < weight,
            Threshold::AbsolutePercentage { percentage } => self.total_weight - self.votes.no
                < spec_votes_needed(self.total_weight as int, percentage),
            Threshold::ThresholdQuorum { threshold, quorum } => {
                let uncast = self.total_weight - self.votes.spec_total();
                let best_yes = self.votes.yes + uncast;
                let best_opinions = self.votes.yes + self.votes.no + self.votes.veto + uncast;
                ||| best_yes < spec_votes_needed(best_opinions, threshold)
                ||| (uncast == 0 && self.votes.spec_total() < spec_votes_needed(
                    self.total_weight as int,
                    quorum,
                ))
            },
        }
    }

    /// The status-refresh algorithm, as a value: only an open proposal moves.
    /// It becomes passed the moment the rule is satisfied; it becomes rejected
    /// the moment passing is mathematically impossible, or once its window has
    /// elapsed without a pass.
    pub open spec fn spec_current_status(self, block: BlockInfo) -> Status {
        if self.status == Status::Open {
            if self.spec_is_passed() {
                Status::Passed
            } else if self.spec_is_rejected() || self.expires.spec_is_expired(block) {
                Status::Rejected
            } else {
                Status::Open
            }
        } else {
            self.status
        }
    }

    /// Whether the configured rule is satisfied by the current tally.
    pub fn is_passed(&self) -> (r: bool)
        requires
            self.tally_wf(),
        ensures
            r == self.spec_is_passed(),
    {
        match &self.threshold {
            Threshold::AbsoluteCount { weight } => self.votes.yes >= *weight,
            Threshold::AbsolutePercentage { percentage } => self.votes.yes >= votes_needed(
                self.total_weight,
                percentage,
            ),
            Threshold::ThresholdQuorum { threshold, quorum } => {
                let total_cast = self.votes.total();
                let opinions = self.votes.yes + self.votes.no + self.votes.veto;
                total_cast >= votes_needed(self.total_weight, quorum) && self.votes.yes
                    >= votes_needed(opinions, threshold)
            },
        }
    }

    /// Whether passing has become mathematically impossible.
    pub fn is_rejected(&self) -> (r: bool)
        requires
            self.tally_wf(),
        ensures
            r == self.spec_is_rejected(),
    {
        match &self.threshold {
            Threshold::AbsoluteCount { weight } => self.total_weight - self.votes.no < *weight,
            Threshold::AbsolutePercentage { percentage } => self.total_weight - self.votes.no
                < votes_needed(self.total_weight, percentage),
            Threshold::ThresholdQuorum { threshold, quorum } => {
                let total_cast = self.votes.total();
                let uncast = self.total_weight - total_cast;
                let best_yes = self.votes.yes + uncast;
                let best_opinions = self.votes.yes + self.votes.no + self.votes.veto + uncast;
                best_yes < votes_needed(best_opinions, threshold) || (uncast == 0 && total_cast
                    < votes_needed(self.total_weight, quorum))
            },
        }
    }

    /// Runs the status-refresh algorithm in place, against the given block.
    pub fn update_status(&mut self, block: &BlockInfo)
        requires
            old(self).tally_wf(),
        ensures
            *final(self) == (Proposal {
                status: old(self).spec_current_status(*block),
                ..*old(self)
            }),
    {
        if self.status == Status::Open {
            if self.is_passed() {
                self.status = Status::Passed;
            } else if self.is_rejected() || self.expires.is_expired(block) {
                self.status = Status::Rejected;
            }
        }
    }
}

} // verus!
