//! The governance engine: the owned contract state, the one-time creation,
//! the four state-changing operations, and the read queries. The host hands
//! every operation the block context and the caller's address; the engine owns
//! everything else as plain values.

use vstd::prelude::*;
use crate::error::ContractError;
use crate::expiration::{BlockInfo, Expiration};
use crate::msg::{HandleMsg, InitMsg, QueryMsg, Status, Vote, Voter};
use crate::query::{
    ProposalListResponse, ProposalResponse, QueryAnswer, VoteInfo, VoteListResponse, VoteResponse,
    VoterListResponse, VoterResponse,
};
use crate::state::{Ballot, Config, Proposal, Votes};
use crate::threshold::{ThresholdError, ThresholdResponse};

verus! {

/// The execution context the host hands to every operation: the current block
/// and the caller's address.
#[derive(Clone, Debug, PartialEq)]
pub struct Env {
    pub block: BlockInfo,
    pub sender: String,
}

/// One cast ballot together with the address that cast it: a row of the
/// per-proposal ballot registry.
#[derive(Clone, Debug, PartialEq)]
pub struct BallotEntry {
    pub addr: String,
    pub ballot: Ballot,
}

/// The whole persistent state of the engine: the configuration, the immutable
/// voter registry, every proposal ever created (position `k` holds proposal id
/// `k + 1`; proposals are never deleted), and, in parallel, each proposal's
/// ballot registry.
#[derive(Clone, Debug, PartialEq)]
pub struct GovState {
    pub config: Config,
    pub voters: Vec<Voter>,
    pub proposals: Vec<Proposal>,
    pub ballots: Vec<Vec<BallotEntry>>,
}

/// What a state-changing operation reports back: the payload to dispatch (only
/// execution forwards one), the caller echoed, the proposal acted on, and the
/// proposal's status after the operation where one was refreshed.
#[derive(Clone, Debug, PartialEq)]
pub struct HandleResponse {
    pub messages: Vec<Vec<u8>>,
    pub sender: String,
    pub proposal_id: u64,
    pub status: Option<Status>,
}

/// The weight the registry holds for `addr`: of several entries with the same
/// address, the last one written wins.
pub open spec fn spec_voter_weight(voters: Seq<Voter>, addr: Seq<char>) -> Option<u64>
    decreases voters.len(),
{
    if voters.len() == 0 {
        None
    } else if voters.last().addr@ == addr {
        Some(voters.last().weight)
    } else {
        spec_voter_weight(voters.drop_last(), addr)
    }
}

/// The ballot recorded for `addr`, if any.
pub open spec fn spec_find_ballot(entries: Seq<BallotEntry>, addr: Seq<char>) -> Option<Ballot>
    decreases entries.len(),
{
    if entries.len() == 0 {
        None
    } else if entries.last().addr@ == addr {
        Some(entries.last().ballot)
    } else {
        spec_find_ballot(entries.drop_last(), addr)
    }
}

/// The sum of all registered weights.
pub open spec fn sum_weights(voters: Seq<Voter>) -> int
    decreases voters.len(),
{
    if voters.len() == 0 {
        0
    } else {
        sum_weights(voters.drop_last()) + voters.last().weight
    }
}

/// The sum of the weights captured in the given ballots.
pub open spec fn sum_ballot_weights(entries: Seq<BallotEntry>) -> int
    decreases entries.len(),
{
    if entries.len() == 0 {
        0
    } else {
        sum_ballot_weights(entries.drop_last()) + entries.last().ballot.weight
    }
}

/// The sum of the weights captured in the given ballots that were cast for
/// one choice.
pub open spec fn sum_ballot_weights_for(entries: Seq<BallotEntry>, choice: Vote) -> int
    decreases entries.len(),
{
    if entries.len() == 0 {
        0
    } else {
        sum_ballot_weights_for(entries.drop_last(), choice) + if entries.last().ballot.vote
            == choice {
            entries.last().ballot.weight as int
        } else {
            0
        }
    }
}

/// No two ballots in the registry belong to the same address.
pub open spec fn entries_unique(entries: Seq<BallotEntry>) -> bool {
    forall|i: int, j: int| 0 <= i < j < entries.len() ==> entries[i].addr@ != entries[j].addr@
}

/// The ballot was cast by a registered voter, with the weight the registry
/// holds for them.
pub open spec fn entry_registered(voters: Seq<Voter>, e: BallotEntry) -> bool {
    exists|i: int|
        0 <= i < voters.len() && voters[i].addr@ == e.addr@ && voters[i].weight
            == e.ballot.weight
}

/// Every ballot in the registry was cast by a registered voter.
pub open spec fn entries_registered(voters: Seq<Voter>, entries: Seq<BallotEntry>) -> bool {
    forall|i: int| 0 <= i < entries.len() ==> entry_registered(voters, #[trigger] entries[i])
}

/// A registered weight sum never goes negative.
pub proof fn lemma_sum_weights_nonneg(voters: Seq<Voter>)
    ensures
        sum_weights(voters) >= 0,
    decreases voters.len(),
{
    if voters.len() > 0 {
        lemma_sum_weights_nonneg(voters.drop_last());
    }
}

/// A prefix of the registry weighs no more than the whole registry.
pub proof fn lemma_sum_weights_prefix(voters: Seq<Voter>, i: int)
    requires
        0 <= i <= voters.len(),
    ensures
        sum_weights(voters.take(i)) <= sum_weights(voters),
    decreases voters.len(),
{
    if i == voters.len() {
        assert(voters.take(i) =~= voters);
    } else {
        assert(voters.drop_last().take(i) =~= voters.take(i));
        lemma_sum_weights_prefix(voters.drop_last(), i);
    }
}

/// Removing one voter removes exactly their weight from the sum.
pub proof fn lemma_sum_weights_remove(voters: Seq<Voter>, i: int)
    requires
        0 <= i < voters.len(),
    ensures
        sum_weights(voters) == sum_weights(voters.remove(i)) + voters[i].weight,
    decreases voters.len(),
{
    if i == voters.len() - 1 {
        assert(voters.remove(i) =~= voters.drop_last());
    } else {
        let shorter = voters.drop_last();
        lemma_sum_weights_remove(shorter, i);
        assert(voters.remove(i).drop_last() =~= shorter.remove(i));
        assert(voters.remove(i).last() == voters.last());
    }
}

/// A single registered weight never exceeds the sum of all of them.
pub proof fn lemma_single_weight_le(voters: Seq<Voter>, i: int)
    requires
        0 <= i < voters.len(),
    ensures
        voters[i].weight <= sum_weights(voters),
{
    lemma_sum_weights_remove(voters, i);
    lemma_sum_weights_nonneg(voters.remove(i));
}

/// A weight the registry reports belongs to some registered voter.
pub proof fn lemma_voter_weight_registered(voters: Seq<Voter>, addr: Seq<char>, w: u64)
    requires
        spec_voter_weight(voters, addr) == Some(w),
    ensures
        exists|i: int|
            0 <= i < voters.len() && voters[i].addr@ == addr && voters[i].weight == w,
    decreases voters.len(),
{
    if voters.len() > 0 && voters.last().addr@ != addr {
        lemma_voter_weight_registered(voters.drop_last(), addr, w);
        let i = choose|i: int|
            0 <= i < voters.drop_last().len() && voters.drop_last()[i].addr@ == addr
                && voters.drop_last()[i].weight == w;
        assert(voters[i].addr@ == addr && voters[i].weight == w);
    }
}

/// When no ballot is recorded for an address, no row carries that address.
pub proof fn lemma_find_ballot_none(entries: Seq<BallotEntry>, addr: Seq<char>)
    requires
        spec_find_ballot(entries, addr) is None,
    ensures
        forall|i: int| 0 <= i < entries.len() ==> entries[i].addr@ != addr,
    decreases entries.len(),
{
    if entries.len() > 0 {
        lemma_find_ballot_none(entries.drop_last(), addr);
        assert(forall|i: int|
            0 <= i < entries.len() - 1 ==> entries[i] == entries.drop_last()[i]);
    }
}

/// Appending one ballot grows the total fold by exactly its weight, and the
/// per-choice folds only in its own bucket.
pub proof fn lemma_ballot_sums_push(entries: Seq<BallotEntry>, e: BallotEntry)
    ensures
        sum_ballot_weights(entries.push(e)) == sum_ballot_weights(entries) + e.ballot.weight,
        forall|c: Vote|
            #[trigger] sum_ballot_weights_for(entries.push(e), c) == sum_ballot_weights_for(
                entries,
                c,
            ) + if e.ballot.vote == c {
                e.ballot.weight as int
            } else {
                0
            },
{
    assert(entries.push(e).drop_last() =~= entries);
    assert(entries.push(e).last() == e);
}

/// Ballots cast by distinct registered voters weigh, together, no more than
/// the whole registry: the heart of the engine's overflow freedom.
pub proof fn lemma_ballots_bounded(entries: Seq<BallotEntry>, voters: Seq<Voter>)
    requires
        entries_unique(entries),
        entries_registered(voters, entries),
    ensures
        sum_ballot_weights(entries) <= sum_weights(voters),
    decreases entries.len(),
{
    if entries.len() == 0 {
        lemma_sum_weights_nonneg(voters);
    } else {
        let e = entries.last();
        let rest = entries.drop_last();
        assert(entry_registered(voters, entries[entries.len() - 1]));
        let i = choose|i: int|
            0 <= i < voters.len() && voters[i].addr@ == e.addr@ && voters[i].weight
                == e.ballot.weight;
        let remaining = voters.remove(i);
        assert(forall|a: int, b: int|
            0 <= a < b < rest.len() ==> rest[a].addr@ != rest[b].addr@);
        assert forall|j: int| 0 <= j < rest.len() implies entry_registered(
            remaining,
            #[trigger] rest[j],
        ) by {
            assert(entry_registered(voters, entries[j]));
            let k = choose|k: int|
                0 <= k < voters.len() && voters[k].addr@ == rest[j].addr@ && voters[k].weight
                    == rest[j].ballot.weight;
            assert(rest[j].addr@ != e.addr@);
            if k < i {
                assert(remaining[k] == voters[k]);
            } else {
                assert(remaining[k - 1] == voters[k]);
            }
        }
        lemma_ballots_bounded(rest, remaining);
        lemma_sum_weights_remove(voters, i);
    }
}

impl GovState {
    /// Proposal `k` is consistent with the state around it: its snapshot is
    /// the (immutable) configuration, its ballot registry holds at most one
    /// ballot per voter, each cast by a registered voter at their registered
    /// weight, and its tally is, bucket by bucket, exactly the fold of those
    /// ballots.
    pub open spec fn proposal_wf(self, k: int) -> bool {
        let p = self.proposals@[k];
        let es = self.ballots@[k]@;
        &&& p.threshold == self.config.threshold
        &&& p.total_weight == self.config.total_weight
        &&& entries_unique(es)
        &&& entries_registered(self.voters@, es)
        &&& p.votes.spec_total() == sum_ballot_weights(es)
        &&& p.votes.yes == sum_ballot_weights_for(es, Vote::Yes)
        &&& p.votes.no == sum_ballot_weights_for(es, Vote::No)
        &&& p.votes.abstain == sum_ballot_weights_for(es, Vote::Abstain)
        &&& p.votes.veto == sum_ballot_weights_for(es, Vote::Veto)
    }

    /// The engine's invariant: the configured total weight is the registry
    /// sum, the configured rule passed validation, every proposal has its
    /// ballot registry, and every proposal is consistent.
    pub open spec fn wf(self) -> bool {
        &&& self.config.total_weight == sum_weights(self.voters@)
        &&& self.config.threshold.spec_validate(self.config.total_weight) == Ok::<
            (),
            ThresholdError,
        >(())
        &&& self.ballots@.len() == self.proposals@.len()
        &&& forall|k: int| 0 <= k < self.proposals@.len() ==> #[trigger] self.proposal_wf(k)
    }

    /// A consistent proposal's tally is well formed: no more weight is cast
    /// than exists.
    pub proof fn lemma_proposal_tally_wf(self, k: int)
        requires
            self.wf(),
            0 <= k < self.proposals@.len(),
        ensures
            self.proposals@[k].tally_wf(),
            self.proposals@[k].votes.spec_total() <= self.config.total_weight,
    {
        assert(self.proposal_wf(k));
        lemma_ballots_bounded(self.ballots@[k]@, self.voters@);
    }
}

/// The weight the registry holds for `addr`, if the address is registered at
/// all; of duplicate registrations the last one written wins.
pub fn voter_weight_of(voters: &Vec<Voter>, addr: &String) -> (r: Option<u64>)
    ensures
        r == spec_voter_weight(voters@, addr@),
{
    let mut found: Option<u64> = None;
    let mut i: usize = 0;
    while i < voters.len()
        invariant
            0 <= i <= voters@.len(),
            found == spec_voter_weight(voters@.take(i as int), addr@),
        decreases voters@.len() - i,
    {
        proof {
            assert(voters@.take(i + 1).drop_last() =~= voters@.take(i as int));
            assert(voters@.take(i + 1).last() == voters@[i as int]);
        }
        if voters[i].addr == *addr {
            found = Some(voters[i].weight);
        }
        i = i + 1;
    }
    proof {
        assert(voters@.take(voters@.len() as int) =~= voters@);
    }
    found
}

/// The ballot recorded for `addr` on one proposal, if any.
pub fn find_ballot_in(entries: &Vec<BallotEntry>, addr: &String) -> (r: Option<Ballot>)
    ensures
        r == spec_find_ballot(entries@, addr@),
{
    let mut found: Option<Ballot> = None;
    let mut i: usize = 0;
    while i < entries.len()
        invariant
            0 <= i <= entries@.len(),
            found == spec_find_ballot(entries@.take(i as int), addr@),
        decreases entries@.len() - i,
    {
        proof {
            assert(entries@.take(i + 1).drop_last() =~= entries@.take(i as int));
            assert(entries@.take(i + 1).last() == entries@[i as int]);
        }
        if entries[i].addr == *addr {
            found = Some(entries[i].ballot);
        }
        i = i + 1;
    }
    proof {
        assert(entries@.take(entries@.len() as int) =~= entries@);
    }
    found
}

/// Creates the engine: checks the voter list is non-empty, validates the
/// threshold against the summed weight, and persists the configuration and
/// the registry. No proposals exist yet.
pub fn init(msg: InitMsg) -> (r: Result<GovState, ContractError>)
    requires
        sum_weights(msg.voters@) <= u64::MAX,
    ensures
        msg.voters@.len() == 0 ==> r == Err::<GovState, ContractError>(ContractError::NoVoters),
        msg.voters@.len() > 0 ==> match msg.threshold.spec_validate(
            sum_weights(msg.voters@) as u64,
        ) {
            Err(e) => r == Err::<GovState, ContractError>(ContractError::Threshold(e)),
            Ok(_) => {
                &&& r is Ok
                &&& r matches Ok(s) && {
                    &&& s.wf()
                    &&& s.config == (Config {
                        threshold: msg.threshold,
                        total_weight: sum_weights(msg.voters@) as u64,
                        max_voting_period: msg.max_voting_period,
                    })
                    &&& s.voters == msg.voters
                    &&& s.proposals@.len() == 0
                    &&& s.ballots@.len() == 0
                }
            },
        },
{
    if msg.voters.len() == 0 {
        return Err(ContractError::NoVoters);
    }
    let ghost all = msg.voters@;
    let mut total_weight: u64 = 0;
    let mut i: usize = 0;
    while i < msg.voters.len()
        invariant
            0 <= i <= all.len(),
            msg.voters@ == all,
            sum_weights(all) <= u64::MAX,
            total_weight == sum_weights(all.take(i as int)),
        decreases all.len() - i,
    {
        proof {
            assert(all.take(i + 1).drop_last() =~= all.take(i as int));
            assert(all.take(i + 1).last() == all[i as int]);
            lemma_sum_weights_prefix(all, i + 1);
            lemma_sum_weights_nonneg(all.take(i as int));
        }
        total_weight = total_weight + msg.voters[i].weight;
        i = i + 1;
    }
    proof {
        assert(all.take(all.len() as int) =~= all);
    }
    match msg.threshold.validate(total_weight) {
        Err(e) => Err(ContractError::Threshold(e)),
        Ok(_) => {
            let state = GovState {
                config: Config {
                    threshold: msg.threshold,
                    total_weight,
                    max_voting_period: msg.max_voting_period,
                },
                voters: msg.voters,
                proposals: Vec::new(),
                ballots: Vec::new(),
            };
            Ok(state)
        },
    }
}

/// The proposal a successful `propose` call creates, before and after its
/// first status refresh: it opens with the creator's Yes vote already counted,
/// under a snapshot of the configuration.
pub open spec fn spec_new_proposal(
    cfg: Config,
    env: Env,
    title: String,
    description: String,
    msgs: Vec<Vec<u8>>,
    expires: Expiration,
    vote_power: u64,
) -> Proposal {
    let base = Proposal {
        title,
        description,
        start_height: env.block.height,
        expires,
        msgs,
        status: Status::Open,
        votes: Votes { yes: vote_power, no: 0, abstain: 0, veto: 0 },
        threshold: cfg.threshold,
        total_weight: cfg.total_weight,
    };
    Proposal { status: base.spec_current_status(env.block), ..base }
}

/// Everything a `propose` call does, as a relation between the state before,
/// the state after, and the result: only a registered voter may propose; a
/// requested expiration incomparable to the configured maximum is refused, a
/// later one is clamped down to it; on success a fresh proposal is appended
/// under the next id, the creator's Yes ballot is recorded, and the status is
/// refreshed at once. On any error the state is untouched.
pub open spec fn propose_post(
    pre: GovState,
    post: GovState,
    env: Env,
    title: String,
    description: String,
    msgs: Vec<Vec<u8>>,
    latest: Option<Expiration>,
    r: Result<HandleResponse, ContractError>,
) -> bool {
    match spec_voter_weight(pre.voters@, env.sender@) {
        None => r == Err::<HandleResponse, ContractError>(ContractError::Unauthorized) && post
            == pre,
        Some(vote_power) => {
            let max_expires = pre.config.max_voting_period.spec_after(env.block);
            let requested = match latest {
                Some(e) => e,
                None => max_expires,
            };
            if !requested.comparable(max_expires) {
                r == Err::<HandleResponse, ContractError>(ContractError::WrongExpiration) && post
                    == pre
            } else {
                let expires = if requested.spec_is_after(max_expires) {
                    max_expires
                } else {
                    requested
                };
                let prop = spec_new_proposal(
                    pre.config,
                    env,
                    title,
                    description,
                    msgs,
                    expires,
                    vote_power,
                );
                &&& post.config == pre.config
                &&& post.voters == pre.voters
                &&& post.proposals@ == pre.proposals@.push(prop)
                &&& post.ballots@.len() == pre.ballots@.len() + 1
                &&& (forall|k: int|
                    0 <= k < pre.ballots@.len() ==> post.ballots@[k] == pre.ballots@[k])
                &&& post.ballots@.last()@ == seq![
                    BallotEntry {
                        addr: env.sender,
                        ballot: Ballot { weight: vote_power, vote: Vote::Yes },
                    },
                ]
                &&& match r {
                    Ok(resp) => {
                        &&& resp.messages@.len() == 0
                        &&& resp.sender == env.sender
                        &&& resp.proposal_id == pre.proposals@.len() + 1
                        &&& resp.status == Some(prop.status)
                    },
                    Err(_) => false,
                }
            }
        },
    }
}

/// Opens a new proposal: only a registered voter (of any weight, including
/// zero) may create one. The voting window is the requested expiration,
/// clamped down to the configured maximum; a request in the other unit fails.
/// The creator's own Yes ballot is cast in the same atomic step, and the
/// status is refreshed at once, so a sufficiently weighted creator opens an
/// already-passed proposal.
pub fn execute_propose(
    state: &mut GovState,
    env: &Env,
    title: String,
    description: String,
    msgs: Vec<Vec<u8>>,
    latest: Option<Expiration>,
) -> (r: Result<HandleResponse, ContractError>)
    requires
        old(state).wf(),
        old(state).config.max_voting_period.fits_after(env.block),
        old(state).proposals@.len() < u64::MAX,
    ensures
        final(state).wf(),
        propose_post(*old(state), *final(state), *env, title, description, msgs, latest, r),
{
    let vote_power = match voter_weight_of(&state.voters, &env.sender) {
        Some(w) => w,
        None => {
            return Err(ContractError::Unauthorized);
        },
    };
    let max_expires = state.config.max_voting_period.after(&env.block);
    let mut expires = match latest {
        Some(e) => e,
        None => max_expires,
    };
    if !expires.is_comparable(&max_expires) {
        return Err(ContractError::WrongExpiration);
    }
    if expires.is_after(&max_expires) {
        expires = max_expires;
    }
    let mut prop = Proposal {
        title,
        description,
        start_height: env.block.height,
        expires,
        msgs,
        status: Status::Open,
        votes: Votes::yes(vote_power),
        threshold: state.config.threshold,
        total_weight: state.config.total_weight,
    };
    let ghost wit: int;
    proof {
        lemma_voter_weight_registered(state.voters@, env.sender@, vote_power);
        wit = choose|i: int|
            0 <= i < state.voters@.len() && state.voters@[i].addr@ == env.sender@
                && state.voters@[i].weight == vote_power;
        lemma_single_weight_le(state.voters@, wit);
    }
    prop.update_status(&env.block);
    let status = prop.status;
    let proposal_id = (state.proposals.len() as u64) + 1;
    let ghost pre = *state;
    state.proposals.push(prop);
    let entry = BallotEntry {
        addr: env.sender.clone(),
        ballot: Ballot { weight: vote_power, vote: Vote::Yes },
    };
    let mut entries: Vec<BallotEntry> = Vec::new();
    entries.push(entry);
    state.ballots.push(entries);
    proof {
        let n = pre.proposals@.len() as int;
        assert forall|k: int| 0 <= k < state.proposals@.len() implies #[trigger] state.proposal_wf(
            k,
        ) by {
            if k < n {
                assert(pre.proposal_wf(k));
                assert(state.proposals@[k] == pre.proposals@[k]);
                assert(state.ballots@[k] == pre.ballots@[k]);
            } else {
                let e = BallotEntry {
                    addr: env.sender,
                    ballot: Ballot { weight: vote_power, vote: Vote::Yes },
                };
                assert(state.ballots@[n]@ =~= Seq::<BallotEntry>::empty().push(e));
                assert(state.voters@[wit].addr@ == e.addr@ && state.voters@[wit].weight
                    == e.ballot.weight);
                assert(entry_registered(state.voters@, e));
                lemma_ballot_sums_push(Seq::<BallotEntry>::empty(), e);
                assert(state.proposals@[n].votes == (Votes {
                    yes: vote_power,
                    no: 0,
                    abstain: 0,
                    veto: 0,
                }));
            }
        }
    }
    Ok(
        HandleResponse {
            messages: Vec::new(),
            sender: env.sender.clone(),
            proposal_id,
            status: Some(status),
        },
    )
}

/// Everything a `vote` call does, as a relation between the state before, the
/// state after, and the result: only a registered voter of weight at least one
/// may vote, only on an existing, open, unexpired proposal, and only once; on
/// success the ballot is recorded at the caller's registered weight, the tally
/// grows by that weight, and the status is refreshed at once. On any error the
/// state is untouched.
pub open spec fn vote_post(
    pre: GovState,
    post: GovState,
    env: Env,
    proposal_id: u64,
    vote: Vote,
    r: Result<HandleResponse, ContractError>,
) -> bool {
    let w_opt = spec_voter_weight(pre.voters@, env.sender@);
    if !(w_opt matches Some(w) && w >= 1) {
        r == Err::<HandleResponse, ContractError>(ContractError::Unauthorized) && post == pre
    } else if !(1 <= proposal_id <= pre.proposals@.len()) {
        r == Err::<HandleResponse, ContractError>(ContractError::NotFound) && post == pre
    } else {
        let k = proposal_id - 1;
        let p = pre.proposals@[k];
        if p.status != Status::Open {
            r == Err::<HandleResponse, ContractError>(ContractError::NotOpen) && post == pre
        } else if p.expires.spec_is_expired(env.block) {
            r == Err::<HandleResponse, ContractError>(ContractError::Expired) && post == pre
        } else if spec_find_ballot(pre.ballots@[k]@, env.sender@) is Some {
            r == Err::<HandleResponse, ContractError>(ContractError::AlreadyVoted) && post == pre
        } else {
            let vote_power = match w_opt {
                Some(w) => w,
                None => 0,
            };
            let voted = Proposal { votes: p.votes.spec_add(vote, vote_power), ..p };
            let refreshed = Proposal { status: voted.spec_current_status(env.block), ..voted };
            &&& post.config == pre.config
            &&& post.voters == pre.voters
            &&& post.proposals@ == pre.proposals@.update(k, refreshed)
            &&& post.ballots@.len() == pre.ballots@.len()
            &&& (forall|j: int|
                0 <= j < pre.ballots@.len() && j != k ==> post.ballots@[j] == pre.ballots@[j])
            &&& post.ballots@[k]@ == pre.ballots@[k]@.push(
                BallotEntry {
                    addr: env.sender,
                    ballot: Ballot { weight: vote_power, vote },
                },
            )
            &&& match r {
                Ok(resp) => {
                    &&& resp.messages@.len() == 0
                    &&& resp.sender == env.sender
                    &&& resp.proposal_id == proposal_id
                    &&& resp.status == Some(refreshed.status)
                },
                Err(_) => false,
            }
        }
    }
}

/// Casts a ballot: the caller must be registered with weight at least one, the
/// proposal must exist, be open, and not be expired, and the caller must not
/// have voted on it before. The ballot is recorded and the tally updated in
/// one atomic step, and the status is refreshed at once.
pub fn execute_vote(state: &mut GovState, env: &Env, proposal_id: u64, vote: Vote) -> (r: Result<
    HandleResponse,
    ContractError,
>)
    requires
        old(state).wf(),
    ensures
        final(state).wf(),
        vote_post(*old(state), *final(state), *env, proposal_id, vote, r),
{
    let vote_power: u64 = match voter_weight_of(&state.voters, &env.sender) {
        Some(w) => {
            if w >= 1 {
                w
            } else {
                return Err(ContractError::Unauthorized);
            }
        },
        None => {
            return Err(ContractError::Unauthorized);
        },
    };
    if proposal_id < 1 || proposal_id > state.proposals.len() as u64 {
        return Err(ContractError::NotFound);
    }
    let k = (proposal_id - 1) as usize;
    if state.proposals[k].status != Status::Open {
        return Err(ContractError::NotOpen);
    }
    if state.proposals[k].expires.is_expired(&env.block) {
        return Err(ContractError::Expired);
    }
    match find_ballot_in(&state.ballots[k], &env.sender) {
        Some(_) => {
            return Err(ContractError::AlreadyVoted);
        },
        None => {},
    }
    let ghost pre = *state;
    let ghost es = pre.ballots@[k as int]@;
    let ghost e = BallotEntry {
        addr: env.sender,
        ballot: Ballot { weight: vote_power, vote },
    };
    proof {
        pre.lemma_proposal_tally_wf(k as int);
        assert(pre.proposal_wf(k as int));
        lemma_voter_weight_registered(pre.voters@, env.sender@, vote_power);
        lemma_find_ballot_none(es, env.sender@);
        assert(entries_unique(es.push(e))) by {
            assert(forall|i: int| 0 <= i < es.len() ==> es.push(e)[i] == es[i]);
            assert(es.push(e)[es.len() as int] == e);
        }
        assert(entries_registered(pre.voters@, es.push(e))) by {
            assert(forall|i: int| 0 <= i < es.len() ==> es.push(e)[i] == es[i]);
            assert(es.push(e)[es.len() as int] == e);
        }
        lemma_ballots_bounded(es.push(e), pre.voters@);
        lemma_ballot_sums_push(es, e);
    }
    let mut prop = state.proposals.remove(k);
    let mut entries = state.ballots.remove(k);
    let entry = BallotEntry {
        addr: env.sender.clone(),
        ballot: Ballot { weight: vote_power, vote },
    };
    entries.push(entry);
    prop.votes.add_vote(vote, vote_power);
    prop.update_status(&env.block);
    let status = prop.status;
    state.proposals.insert(k, prop);
    state.ballots.insert(k, entries);
    proof {
        let ki = k as int;
        assert(state.proposals@ =~= pre.proposals@.update(
            ki,
            state.proposals@[ki],
        ));
        assert(state.ballots@ =~= pre.ballots@.update(ki, state.ballots@[ki]));
        assert(state.ballots@[ki]@ == es.push(e));
        assert forall|j: int| 0 <= j < state.proposals@.len() implies #[trigger] state.proposal_wf(
            j,
        ) by {
            if j != ki {
                assert(pre.proposal_wf(j));
                assert(state.proposals@[j] == pre.proposals@[j]);
                assert(state.ballots@[j] == pre.ballots@[j]);
            }
        }
    }
    Ok(
        HandleResponse {
            messages: Vec::new(),
            sender: env.sender.clone(),
            proposal_id,
            status: Some(status),
        },
    )
}

/// A byte-for-byte copy of an opaque payload.
fn copy_payload(msgs: &Vec<Vec<u8>>) -> (r: Vec<Vec<u8>>)
    ensures
        r@.len() == msgs@.len(),
        forall|i: int| 0 <= i < msgs@.len() ==> r@[i]@ == msgs@[i]@,
{
    let mut out: Vec<Vec<u8>> = Vec::new();
    let mut i: usize = 0;
    while i < msgs.len()
        invariant
            0 <= i <= msgs@.len(),
            out@.len() == i,
            forall|j: int| 0 <= j < i ==> out@[j]@ == msgs@[j]@,
        decreases msgs@.len() - i,
    {
        let src = &msgs[i];
        let mut one: Vec<u8> = Vec::new();
        let mut b: usize = 0;
        while b < src.len()
            invariant
                0 <= b <= src@.len(),
                one@ == src@.take(b as int),
            decreases src@.len() - b,
        {
            one.push(src[b]);
            proof {
                assert(src@.take(b + 1) =~= src@.take(b as int).push(src@[b as int]));
            }
            b = b + 1;
        }
        proof {
            assert(src@.take(src@.len() as int) =~= src@);
        }
        out.push(one);
        i = i + 1;
    }
    out
}

/// The payloads of the two vectors are the same bytes.
pub open spec fn same_payload(a: Vec<Vec<u8>>, b: Vec<Vec<u8>>) -> bool {
    &&& a@.len() == b@.len()
    &&& forall|i: int| 0 <= i < a@.len() ==> a@[i]@ == b@[i]@
}

/// Everything an `execute` call does: anyone may trigger it, but only on an
/// existing proposal whose status is exactly passed — once passed, the
/// decision is final and time-independent, so expiry does not block it. On
/// success the proposal becomes executed and its payload is handed back,
/// unopened, for dispatch. On any error the state is untouched.
pub open spec fn execute_post(
    pre: GovState,
    post: GovState,
    env: Env,
    proposal_id: u64,
    r: Result<HandleResponse, ContractError>,
) -> bool {
    if !(1 <= proposal_id <= pre.proposals@.len()) {
        r == Err::<HandleResponse, ContractError>(ContractError::NotFound) && post == pre
    } else {
        let k = proposal_id - 1;
        let p = pre.proposals@[k];
        if p.status != Status::Passed {
            r == Err::<HandleResponse, ContractError>(ContractError::WrongExecuteStatus) && post
                == pre
        } else {
            &&& post.config == pre.config
            &&& post.voters == pre.voters
            &&& post.ballots == pre.ballots
            &&& post.proposals@ == pre.proposals@.update(
                k,
                Proposal { status: Status::Executed, ..p },
            )
            &&& match r {
                Ok(resp) => {
                    &&& same_payload(resp.messages, p.msgs)
                    &&& resp.sender == env.sender
                    &&& resp.proposal_id == proposal_id
                    &&& resp.status is None
                },
                Err(_) => false,
            }
        }
    }
}

/// Dispatches a passed proposal: callable by anyone, allowed even after the
/// proposal's nominal expiry. The status becomes executed and the opaque
/// payload is forwarded, exactly once.
pub fn execute_execute(state: &mut GovState, env: &Env, proposal_id: u64) -> (r: Result<
    HandleResponse,
    ContractError,
>)
    requires
        old(state).wf(),
    ensures
        final(state).wf(),
        execute_post(*old(state), *final(state), *env, proposal_id, r),
{
    if proposal_id < 1 || proposal_id > state.proposals.len() as u64 {
        return Err(ContractError::NotFound);
    }
    let k = (proposal_id - 1) as usize;
    if state.proposals[k].status != Status::Passed {
        return Err(ContractError::WrongExecuteStatus);
    }
    let ghost pre = *state;
    let mut prop = state.proposals.remove(k);
    prop.status = Status::Executed;
    let messages = copy_payload(&prop.msgs);
    state.proposals.insert(k, prop);
    proof {
        let ki = k as int;
        assert(state.proposals@ =~= pre.proposals@.update(ki, state.proposals@[ki]));
        assert forall|j: int| 0 <= j < state.proposals@.len() implies #[trigger] state.proposal_wf(
            j,
        ) by {
            assert(pre.proposal_wf(j));
            if j != ki {
                assert(state.proposals@[j] == pre.proposals@[j]);
            }
        }
    }
    Ok(
        HandleResponse {
            messages,
            sender: env.sender.clone(),
            proposal_id,
            status: None,
        },
    )
}

/// Everything a `close` call does: anyone may trigger it, but only on an
/// existing proposal that is neither executed, rejected, nor passed, and only
/// once its voting window has elapsed. On success the proposal becomes
/// rejected: this is how a stale, never-decided proposal is formally
/// terminated. On any error the state is untouched.
pub open spec fn close_post(
    pre: GovState,
    post: GovState,
    env: Env,
    proposal_id: u64,
    r: Result<HandleResponse, ContractError>,
) -> bool {
    if !(1 <= proposal_id <= pre.proposals@.len()) {
        r == Err::<HandleResponse, ContractError>(ContractError::NotFound) && post == pre
    } else {
        let k = proposal_id - 1;
        let p = pre.proposals@[k];
        if p.status == Status::Executed || p.status == Status::Rejected || p.status
            == Status::Passed {
            r == Err::<HandleResponse, ContractError>(ContractError::WrongCloseStatus) && post
                == pre
        } else if !p.expires.spec_is_expired(env.block) {
            r == Err::<HandleResponse, ContractError>(ContractError::NotExpired) && post == pre
        } else {
            &&& post.config == pre.config
            &&& post.voters == pre.voters
            &&& post.ballots == pre.ballots
            &&& post.proposals@ == pre.proposals@.update(
                k,
                Proposal { status: Status::Rejected, ..p },
            )
            &&& match r {
                Ok(resp) => {
                    &&& resp.messages@.len() == 0
                    &&& resp.sender == env.sender
                    &&& resp.proposal_id == proposal_id
                    &&& resp.status is None
                },
                Err(_) => false,
            }
        }
    }
}

/// Formally terminates an expired, never-decided proposal: callable by anyone
/// once the voting window has elapsed. The proposal becomes rejected.
pub fn execute_close(state: &mut GovState, env: &Env, proposal_id: u64) -> (r: Result<
    HandleResponse,
    ContractError,
>)
    requires
        old(state).wf(),
    ensures
        final(state).wf(),
        close_post(*old(state), *final(state), *env, proposal_id, r),
{
    if proposal_id < 1 || proposal_id > state.proposals.len() as u64 {
        return Err(ContractError::NotFound);
    }
    let k = (proposal_id - 1) as usize;
    let status = state.proposals[k].status;
    if status == Status::Executed || status == Status::Rejected || status == Status::Passed {
        return Err(ContractError::WrongCloseStatus);
    }
    if !state.proposals[k].expires.is_expired(&env.block) {
        return Err(ContractError::NotExpired);
    }
    let ghost pre = *state;
    let mut prop = state.proposals.remove(k);
    prop.status = Status::Rejected;
    state.proposals.insert(k, prop);
    proof {
        let ki = k as int;
        assert(state.proposals@ =~= pre.proposals@.update(ki, state.proposals@[ki]));
        assert forall|j: int| 0 <= j < state.proposals@.len() implies #[trigger] state.proposal_wf(
            j,
        ) by {
            assert(pre.proposal_wf(j));
            if j != ki {
                assert(state.proposals@[j] == pre.proposals@[j]);
            }
        }
    }
    Ok(
        HandleResponse {
            messages: Vec::new(),
            sender: env.sender.clone(),
            proposal_id,
            status: None,
        },
    )
}

/// What the state-changing dispatcher does, per action.
pub open spec fn handle_post(
    pre: GovState,
    post: GovState,
    env: Env,
    msg: HandleMsg,
    r: Result<HandleResponse, ContractError>,
) -> bool {
    match msg {
        HandleMsg::Propose { title, description, msgs, latest } => propose_post(
            pre,
            post,
            env,
            title,
            description,
            msgs,
            latest,
            r,
        ),
        HandleMsg::Vote { proposal_id, vote } => vote_post(pre, post, env, proposal_id, vote, r),
        HandleMsg::Execute { proposal_id } => execute_post(pre, post, env, proposal_id, r),
        HandleMsg::Close { proposal_id } => close_post(pre, post, env, proposal_id, r),
    }
}

/// Routes a state-changing action to the operation it names. Each action maps
/// to exactly one state-machine transition.
pub fn handle(state: &mut GovState, env: &Env, msg: HandleMsg) -> (r: Result<
    HandleResponse,
    ContractError,
>)
    requires
        old(state).wf(),
        msg is Propose ==> old(state).config.max_voting_period.fits_after(env.block) && old(
            state,
        ).proposals@.len() < u64::MAX,
    ensures
        final(state).wf(),
        handle_post(*old(state), *final(state), *env, msg, r),
{
    match msg {
        HandleMsg::Propose { title, description, msgs, latest } => execute_propose(
            state,
            env,
            title,
            description,
            msgs,
            latest,
        ),
        HandleMsg::Vote { proposal_id, vote } => execute_vote(state, env, proposal_id, vote),
        HandleMsg::Execute { proposal_id } => execute_execute(state, env, proposal_id),
        HandleMsg::Close { proposal_id } => execute_close(state, env, proposal_id),
    }
}

/// The response reports the proposal faithfully under the given id: every
/// stored field, the payload byte for byte, and the rule with its snapshot.
/// The status reported is the last persisted one.
pub open spec fn proposal_response_matches(p: Proposal, id: u64, resp: ProposalResponse) -> bool {
    &&& resp.id == id
    &&& resp.title == p.title
    &&& resp.description == p.description
    &&& same_payload(resp.msgs, p.msgs)
    &&& resp.status == p.status
    &&& resp.expires == p.expires
    &&& resp.threshold == p.threshold.spec_to_response(p.total_weight)
}

/// Builds the read-model view of one stored proposal.
fn make_proposal_response(p: &Proposal, id: u64) -> (r: ProposalResponse)
    ensures
        proposal_response_matches(*p, id, r),
{
    ProposalResponse {
        id,
        title: p.title.clone(),
        description: p.description.clone(),
        msgs: copy_payload(&p.msgs),
        status: p.status,
        expires: p.expires,
        threshold: p.threshold.to_response(p.total_weight),
    }
}

/// Reports the configured rule and the total weight it is measured against.
pub fn query_threshold(state: &GovState) -> (r: ThresholdResponse)
    ensures
        r == state.config.threshold.spec_to_response(state.config.total_weight),
{
    state.config.threshold.to_response(state.config.total_weight)
}

/// What querying one proposal returns: the stored proposal under its id, or
/// not-found for an id never assigned.
pub open spec fn query_proposal_post(
    s: GovState,
    proposal_id: u64,
    r: Result<ProposalResponse, ContractError>,
) -> bool {
    if 1 <= proposal_id <= s.proposals@.len() {
        match r {
            Ok(resp) => proposal_response_matches(s.proposals@[proposal_id - 1], proposal_id, resp),
            Err(_) => false,
        }
    } else {
        r == Err::<ProposalResponse, ContractError>(ContractError::NotFound)
    }
}

/// Reads one proposal by id. The status returned is the last persisted one: a
/// proposal whose window elapsed since it was last touched still reads open.
pub fn query_proposal(state: &GovState, proposal_id: u64) -> (r: Result<
    ProposalResponse,
    ContractError,
>)
    ensures
        query_proposal_post(*state, proposal_id, r),
{
    if proposal_id < 1 || proposal_id > state.proposals.len() as u64 {
        return Err(ContractError::NotFound);
    }
    let k = (proposal_id - 1) as usize;
    Ok(make_proposal_response(&state.proposals[k], proposal_id))
}

/// The page size a listing uses: the caller's request, defaulted to ten and
/// capped at thirty, enforced regardless of the request.
pub open spec fn spec_page_limit(limit: Option<u32>) -> int {
    let l: int = match limit {
        Some(x) => x as int,
        None => 10,
    };
    if l > 30 {
        30
    } else {
        l
    }
}

/// What listing proposals in ascending order returns: the first page-size
/// proposals whose id lies strictly above `start_after` (all of them when it
/// is absent), ascending by id, with a short or empty page when fewer remain.
pub open spec fn list_proposals_post(
    s: GovState,
    start_after: Option<u64>,
    limit: Option<u32>,
    r: Result<ProposalListResponse, ContractError>,
) -> bool {
    let latest = s.proposals@.len() as int;
    let cap = spec_page_limit(limit);
    let after: int = match start_after {
        Some(x) => x as int,
        None => 0,
    };
    let avail = if after < latest {
        latest - after
    } else {
        0
    };
    let count = if cap < avail {
        cap
    } else {
        avail
    };
    match r {
        Ok(lst) => {
            &&& lst.proposals@.len() == count
            &&& forall|j: int|
                0 <= j < count ==> proposal_response_matches(
                    s.proposals@[after + j],
                    (after + j + 1) as u64,
                    #[trigger] lst.proposals@[j],
                )
        },
        Err(_) => false,
    }
}

/// Lists proposals ascending by id, strictly after `start_after` (from the
/// first id when it is absent), up to the page size.
pub fn list_proposals(state: &GovState, start_after: Option<u64>, limit: Option<u32>) -> (r: Result<
    ProposalListResponse,
    ContractError,
>)
    ensures
        list_proposals_post(*state, start_after, limit, r),
{
    let latest: u64 = state.proposals.len() as u64;
    let requested: u32 = match limit {
        Some(x) => x,
        None => 10,
    };
    let cap: u64 = if requested > 30 {
        30
    } else {
        requested as u64
    };
    let after: u64 = match start_after {
        Some(x) => x,
        None => 0,
    };
    let avail: u64 = if after < latest {
        latest - after
    } else {
        0
    };
    let count: u64 = if cap < avail {
        cap
    } else {
        avail
    };
    let mut out: Vec<ProposalResponse> = Vec::new();
    let mut j: u64 = 0;
    while j < count
        invariant
            0 <= j <= count,
            latest == state.proposals@.len(),
            count > 0 ==> after + count <= latest,
            out@.len() == j,
            forall|i: int|
                0 <= i < j ==> proposal_response_matches(
                    state.proposals@[after + i],
                    (after + i + 1) as u64,
                    #[trigger] out@[i],
                ),
        decreases count - j,
    {
        let id = after + j + 1;
        let n = state.proposals.len();
        proof {
            assert(id - 1 < n);
        }
        let resp = make_proposal_response(&state.proposals[(id - 1) as usize], id);
        out.push(resp);
        proof {
            assert(out@[j as int] == resp);
            assert((id - 1) as usize == after + j);
        }
        j = j + 1;
    }
    Ok(ProposalListResponse { proposals: out })
}

/// What listing proposals in descending order returns: the newest page-size
/// proposals whose id lies strictly below `start_before` (all of them when it
/// is absent), descending by id, with a short or empty page when fewer remain.
pub open spec fn reverse_proposals_post(
    s: GovState,
    start_before: Option<u64>,
    limit: Option<u32>,
    r: Result<ProposalListResponse, ContractError>,
) -> bool {
    let latest = s.proposals@.len() as int;
    let cap = spec_page_limit(limit);
    let before: int = match start_before {
        Some(x) => x as int,
        None => latest + 1,
    };
    let top = if before - 1 < latest {
        before - 1
    } else {
        latest
    };
    let avail = if top >= 1 {
        top
    } else {
        0
    };
    let count = if cap < avail {
        cap
    } else {
        avail
    };
    match r {
        Ok(lst) => {
            &&& lst.proposals@.len() == count
            &&& forall|j: int|
                0 <= j < count ==> proposal_response_matches(
                    s.proposals@[top - j - 1],
                    (top - j) as u64,
                    #[trigger] lst.proposals@[j],
                )
        },
        Err(_) => false,
    }
}

/// Lists proposals descending by id, strictly before `start_before` (from the
/// newest id when it is absent), down through the page size.
pub fn reverse_proposals(
    state: &GovState,
    start_before: Option<u64>,
    limit: Option<u32>,
) -> (r: Result<ProposalListResponse, ContractError>)
    ensures
        reverse_proposals_post(*state, start_before, limit, r),
{
    let latest: u64 = state.proposals.len() as u64;
    let requested_limit: u32 = match limit {
        Some(x) => x,
        None => 10,
    };
    let cap: u64 = if requested_limit > 30 {
        30
    } else {
        requested_limit as u64
    };
    let top: u64 = match start_before {
        Some(x) => {
            if x == 0 {
                0
            } else if x - 1 < latest {
                x - 1
            } else {
                latest
            }
        },
        None => latest,
    };
    let count: u64 = if cap < top {
        cap
    } else {
        top
    };
    let mut out: Vec<ProposalResponse> = Vec::new();
    let mut j: u64 = 0;
    while j < count
        invariant
            0 <= j <= count,
            count <= top,
            latest == state.proposals@.len(),
            top <= latest,
            out@.len() == j,
            forall|i: int|
                0 <= i < j ==> proposal_response_matches(
                    state.proposals@[top - i - 1],
                    (top - i) as u64,
                    #[trigger] out@[i],
                ),
        decreases count - j,
    {
        let id = top - j;
        let n = state.proposals.len();
        proof {
            assert(id >= 1);
            assert(id - 1 < n);
        }
        let resp = make_proposal_response(&state.proposals[(id - 1) as usize], id);
        out.push(resp);
        proof {
            assert(out@[j as int] == resp);
            assert((id - 1) as usize == top - j - 1);
        }
        j = j + 1;
    }
    Ok(ProposalListResponse { proposals: out })
}

/// What querying one ballot returns: the recorded choice and the weight
/// captured at cast time, or nothing when the voter never cast one (or the
/// proposal does not exist).
pub open spec fn query_vote_post(
    s: GovState,
    proposal_id: u64,
    voter: String,
    r: VoteResponse,
) -> bool {
    let es = if 1 <= proposal_id <= s.ballots@.len() {
        s.ballots@[proposal_id - 1]@
    } else {
        Seq::<BallotEntry>::empty()
    };
    match spec_find_ballot(es, voter@) {
        Some(b) => r.vote == Some(
            VoteInfo { proposal_id, voter, vote: b.vote, weight: b.weight },
        ),
        None => r.vote is None,
    }
}

/// Reads one ballot by proposal id and voter address.
pub fn query_vote(state: &GovState, proposal_id: u64, voter: String) -> (r: VoteResponse)
    ensures
        query_vote_post(*state, proposal_id, voter, r),
{
    let empty_entries: Vec<BallotEntry> = Vec::new();
    let entries: &Vec<BallotEntry> = if proposal_id >= 1 && proposal_id <= state.ballots.len()
        as u64 {
        &state.ballots[(proposal_id - 1) as usize]
    } else {
        &empty_entries
    };
    match find_ballot_in(entries, &voter) {
        Some(b) => VoteResponse {
            vote: Some(VoteInfo { proposal_id, voter, vote: b.vote, weight: b.weight }),
        },
        None => VoteResponse { vote: None },
    }
}

/// The ballots cast on one proposal, reported in cast order: one row per
/// recorded ballot, carrying the choice and the weight captured at cast time.
pub open spec fn spec_vote_infos(entries: Seq<BallotEntry>, proposal_id: u64) -> Seq<VoteInfo>
    decreases entries.len(),
{
    if entries.len() == 0 {
        Seq::empty()
    } else {
        spec_vote_infos(entries.drop_last(), proposal_id).push(
            VoteInfo {
                proposal_id,
                voter: entries.last().addr,
                vote: entries.last().ballot.vote,
                weight: entries.last().ballot.weight,
            },
        )
    }
}

/// What listing a proposal's ballots returns.
pub open spec fn list_votes_post(s: GovState, proposal_id: u64, r: VoteListResponse) -> bool {
    let es = if 1 <= proposal_id <= s.ballots@.len() {
        s.ballots@[proposal_id - 1]@
    } else {
        Seq::<BallotEntry>::empty()
    };
    r.votes@ == spec_vote_infos(es, proposal_id)
}

/// Lists every ballot cast on a proposal, in cast order, each at the weight
/// captured when it was cast. The page arguments are accepted but unused: the
/// full list is returned.
pub fn list_votes(
    state: &GovState,
    proposal_id: u64,
    _start_after: Option<String>,
    _limit: Option<u32>,
) -> (r: VoteListResponse)
    ensures
        list_votes_post(*state, proposal_id, r),
{
    let empty_entries: Vec<BallotEntry> = Vec::new();
    let entries: &Vec<BallotEntry> = if proposal_id >= 1 && proposal_id <= state.ballots.len()
        as u64 {
        &state.ballots[(proposal_id - 1) as usize]
    } else {
        &empty_entries
    };
    let mut votes: Vec<VoteInfo> = Vec::new();
    let mut i: usize = 0;
    while i < entries.len()
        invariant
            0 <= i <= entries@.len(),
            votes@ == spec_vote_infos(entries@.take(i as int), proposal_id),
        decreases entries@.len() - i,
    {
        proof {
            assert(entries@.take(i + 1).drop_last() =~= entries@.take(i as int));
            assert(entries@.take(i + 1).last() == entries@[i as int]);
        }
        votes.push(
            VoteInfo {
                proposal_id,
                voter: entries[i].addr.clone(),
                vote: entries[i].ballot.vote,
                weight: entries[i].ballot.weight,
            },
        );
        i = i + 1;
    }
    proof {
        assert(entries@.take(entries@.len() as int) =~= entries@);
    }
    VoteListResponse { votes }
}

/// Reads one voter's weight, if the address is registered.
pub fn query_voter(state: &GovState, voter: String) -> (r: VoterResponse)
    ensures
        r.weight == spec_voter_weight(state.voters@, voter@),
{
    VoterResponse { weight: voter_weight_of(&state.voters, &voter) }
}

/// Lists the full voter registry. The page arguments are accepted but unused:
/// the full list is returned.
pub fn list_voters(
    state: &GovState,
    _start_after: Option<String>,
    _limit: Option<u32>,
) -> (r: VoterListResponse)
    ensures
        r.voters@ == state.voters@,
{
    let mut out: Vec<Voter> = Vec::new();
    let mut i: usize = 0;
    while i < state.voters.len()
        invariant
            0 <= i <= state.voters@.len(),
            out@ == state.voters@.take(i as int),
        decreases state.voters@.len() - i,
    {
        out.push(state.voters[i].duplicate());
        proof {
            assert(state.voters@.take(i + 1) =~= state.voters@.take(i as int).push(
                state.voters@[i as int],
            ));
        }
        i = i + 1;
    }
    proof {
        assert(state.voters@.take(state.voters@.len() as int) =~= state.voters@);
    }
    VoterListResponse { voters: out }
}

/// What the read dispatcher returns, per query.
pub open spec fn query_post(s: GovState, msg: QueryMsg, r: Result<
    QueryAnswer,
    ContractError,
>) -> bool {
    match msg {
        QueryMsg::Threshold {  } => r == Ok::<QueryAnswer, ContractError>(
            QueryAnswer::Threshold(s.config.threshold.spec_to_response(s.config.total_weight)),
        ),
        QueryMsg::Proposal { proposal_id } => match r {
            Ok(a) => a matches QueryAnswer::Proposal(resp) && query_proposal_post(
                s,
                proposal_id,
                Ok(resp),
            ),
            Err(e) => query_proposal_post(s, proposal_id, Err(e)),
        },
        QueryMsg::ListProposals { start_after, limit } => match r {
            Ok(a) => a matches QueryAnswer::ProposalList(lst) && list_proposals_post(
                s,
                start_after,
                limit,
                Ok(lst),
            ),
            Err(e) => list_proposals_post(s, start_after, limit, Err(e)),
        },
        QueryMsg::ReverseProposals { start_before, limit } => match r {
            Ok(a) => a matches QueryAnswer::ProposalList(lst) && reverse_proposals_post(
                s,
                start_before,
                limit,
                Ok(lst),
            ),
            Err(e) => reverse_proposals_post(s, start_before, limit, Err(e)),
        },
        QueryMsg::Vote { proposal_id, voter } => r matches Ok(a) && a matches QueryAnswer::Vote(
            resp,
        ) && query_vote_post(s, proposal_id, voter, resp),
        QueryMsg::ListVotes { proposal_id, start_after: _, limit: _ } => r matches Ok(a)
            && a matches QueryAnswer::VoteList(resp) && list_votes_post(s, proposal_id, resp),
        QueryMsg::Voter { address } => r matches Ok(a) && a matches QueryAnswer::Voter(resp)
            && resp.weight == spec_voter_weight(s.voters@, address@),
        QueryMsg::ListVoters { start_after: _, limit: _ } => r matches Ok(a)
            && a matches QueryAnswer::VoterList(resp) && resp.voters@ == s.voters@,
    }
}

/// Routes a read query to the lookup it names. Queries never mutate state.
pub fn query(state: &GovState, msg: QueryMsg) -> (r: Result<QueryAnswer, ContractError>)
    ensures
        query_post(*state, msg, r),
{
    match msg {
        QueryMsg::Threshold {  } => Ok(QueryAnswer::Threshold(query_threshold(state))),
        QueryMsg::Proposal { proposal_id } => match query_proposal(state, proposal_id) {
            Ok(resp) => Ok(QueryAnswer::Proposal(resp)),
            Err(e) => Err(e),
        },
        QueryMsg::ListProposals { start_after, limit } => match list_proposals(
            state,
            start_after,
            limit,
        ) {
            Ok(lst) => Ok(QueryAnswer::ProposalList(lst)),
            Err(e) => Err(e),
        },
        QueryMsg::ReverseProposals { start_before, limit } => match reverse_proposals(
            state,
            start_before,
            limit,
        ) {
            Ok(lst) => Ok(QueryAnswer::ProposalList(lst)),
            Err(e) => Err(e),
        },
        QueryMsg::Vote { proposal_id, voter } => Ok(
            QueryAnswer::Vote(query_vote(state, proposal_id, voter)),
        ),
        QueryMsg::ListVotes { proposal_id, start_after, limit } => Ok(
            QueryAnswer::VoteList(list_votes(state, proposal_id, start_after, limit)),
        ),
        QueryMsg::Voter { address } => Ok(QueryAnswer::Voter(query_voter(state, address))),
        QueryMsg::ListVoters { start_after, limit } => Ok(
            QueryAnswer::VoterList(list_voters(state, start_after, limit)),
        ),
    }
}

} // verus!
