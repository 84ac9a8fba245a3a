//! The engine-wide guarantees, stated and proved once over the operation
//! contracts: what validation rejects, that ballots are immutable, that a
//! proposal's status only ever moves forward, and exactly when execution and
//! closing succeed.

use vstd::prelude::*;
use crate::contract::{
    close_post, entries_registered, entries_unique, execute_post, handle_post,
    lemma_ballots_bounded, lemma_find_ballot_none, lemma_voter_weight_registered,
    list_votes_post, spec_find_ballot, spec_vote_infos, spec_voter_weight, sum_ballot_weights,
    sum_ballot_weights_for, vote_post, BallotEntry, Env, GovState, HandleResponse,
};
use crate::error::ContractError;
use crate::expiration::BlockInfo;
use crate::msg::{HandleMsg, Status, Vote};
use crate::query::{VoteInfo, VoteListResponse};
use crate::state::{Ballot, Proposal};
use crate::threshold::{
    lemma_votes_needed_le, Threshold, ThresholdError, DECIMAL_FRACTIONAL,
};

verus! {

/// Validation fails with `UnreachableWeight` exactly when the implied required
/// weight exceeds the total weight, fails with `InvalidThreshold` exactly when
/// some configured fraction lies outside (0, 1], and succeeds otherwise.
pub proof fn lemma_validate_characterization(th: Threshold, total_weight: u64)
    ensures
        th.spec_validate(total_weight) == Err::<(), ThresholdError>(
            ThresholdError::InvalidThreshold,
        ) <==> !th.fractions_valid(),
        th.spec_validate(total_weight) == Err::<(), ThresholdError>(
            ThresholdError::UnreachableWeight,
        ) <==> (th.fractions_valid() && th.spec_required_weight(total_weight) > total_weight),
        th.spec_validate(total_weight) is Ok <==> (th.fractions_valid()
            && th.spec_required_weight(total_weight) <= total_weight),
{
    match th {
        Threshold::AbsoluteCount { weight: _ } => {},
        Threshold::AbsolutePercentage { percentage } => {
            if percentage.atomics <= DECIMAL_FRACTIONAL {
                lemma_votes_needed_le(total_weight as int, percentage);
            }
        },
        Threshold::ThresholdQuorum { threshold: _, quorum } => {
            if quorum.atomics <= DECIMAL_FRACTIONAL {
                lemma_votes_needed_le(total_weight as int, quorum);
            }
        },
    }
}

/// The reflexive-transitive closure of the legal status moves: a status may
/// stay put, an open proposal may pass, be rejected, or (having passed within
/// the same step) be executed, a passed proposal may be executed, and a
/// pending proposal may be closed into rejection. Nothing else — in
/// particular, nothing ever moves backward out of a terminal status.
pub open spec fn status_le(a: Status, b: Status) -> bool {
    ||| a == b
    ||| (a == Status::Open && (b == Status::Passed || b == Status::Rejected || b
        == Status::Executed))
    ||| (a == Status::Passed && b == Status::Executed)
    ||| (a == Status::Pending && b == Status::Rejected)
}

/// The status-refresh algorithm never moves a status backward.
pub proof fn lemma_refresh_monotonic(p: Proposal, block: BlockInfo)
    ensures
        status_le(p.status, p.spec_current_status(block)),
{
}

/// No state-changing operation ever moves a proposal's status backward, and
/// none ever removes a proposal: the lifecycle runs only along
/// open-to-passed-or-rejected, and passed-to-executed.
pub proof fn lemma_status_monotonic(
    pre: GovState,
    post: GovState,
    env: Env,
    msg: HandleMsg,
    r: Result<HandleResponse, ContractError>,
)
    requires
        handle_post(pre, post, env, msg, r),
    ensures
        post.proposals@.len() >= pre.proposals@.len(),
        forall|k: int|
            0 <= k < pre.proposals@.len() ==> status_le(
                pre.proposals@[k].status,
                post.proposals@[k].status,
            ),
{
    assert forall|k: int| 0 <= k < pre.proposals@.len() implies status_le(
        pre.proposals@[k].status,
        post.proposals@[k].status,
    ) by {
        if post.proposals@[k].status != pre.proposals@[k].status {
            match msg {
                HandleMsg::Propose { .. } => {},
                HandleMsg::Vote { proposal_id, vote } => {
                    let p = pre.proposals@[proposal_id - 1];
                    if p.status == Status::Open {
                        let w = match spec_voter_weight(pre.voters@, env.sender@) {
                            Some(w) => w,
                            None => 0,
                        };
                        let voted = Proposal { votes: p.votes.spec_add(vote, w), ..p };
                        lemma_refresh_monotonic(voted, env.block);
                    }
                },
                HandleMsg::Execute { .. } => {},
                HandleMsg::Close { .. } => {},
            }
        }
    }
}

/// Recorded ballots are never overwritten, reordered, or removed: every ballot
/// registry only ever grows at its end, whatever operation runs.
pub proof fn lemma_ballots_append_only(
    pre: GovState,
    post: GovState,
    env: Env,
    msg: HandleMsg,
    r: Result<HandleResponse, ContractError>,
)
    requires
        handle_post(pre, post, env, msg, r),
    ensures
        post.ballots@.len() >= pre.ballots@.len(),
        forall|k: int|
            0 <= k < pre.ballots@.len() ==> post.ballots@[k]@.len() >= pre.ballots@[k]@.len(),
        forall|k: int, i: int|
            0 <= k < pre.ballots@.len() && 0 <= i < pre.ballots@[k]@.len()
                ==> post.ballots@[k]@[i] == pre.ballots@[k]@[i],
{
}

/// A proposal's tally only ever grows, bucket by bucket: no operation removes
/// or re-weighs a cast vote.
pub proof fn lemma_tally_monotonic(
    pre: GovState,
    post: GovState,
    env: Env,
    msg: HandleMsg,
    r: Result<HandleResponse, ContractError>,
)
    requires
        pre.wf(),
        handle_post(pre, post, env, msg, r),
    ensures
        forall|k: int|
            0 <= k < pre.proposals@.len() ==> {
                let a = #[trigger] pre.proposals@[k].votes;
                let b = post.proposals@[k].votes;
                &&& a.yes <= b.yes
                &&& a.no <= b.no
                &&& a.abstain <= b.abstain
                &&& a.veto <= b.veto
            },
{
    assert forall|k: int| 0 <= k < pre.proposals@.len() implies {
        let a = #[trigger] pre.proposals@[k].votes;
        let b = post.proposals@[k].votes;
        &&& a.yes <= b.yes
        &&& a.no <= b.no
        &&& a.abstain <= b.abstain
        &&& a.veto <= b.veto
    } by {
        match msg {
            HandleMsg::Vote { proposal_id, vote } => {
                let w_opt = spec_voter_weight(pre.voters@, env.sender@);
                if (w_opt matches Some(w) && w >= 1) && 1 <= proposal_id <= pre.proposals@.len()
                    && k == proposal_id - 1 && pre.proposals@[k].status == Status::Open
                    && !pre.proposals@[k].expires.spec_is_expired(env.block) && spec_find_ballot(
                    pre.ballots@[k]@,
                    env.sender@,
                ) is None {
                    let p = pre.proposals@[k];
                    let w = match w_opt {
                        Some(w) => w,
                        None => 0,
                    };
                    let es = pre.ballots@[k]@;
                    let e = BallotEntry { addr: env.sender, ballot: Ballot { weight: w, vote } };
                    assert(pre.proposal_wf(k));
                    lemma_voter_weight_registered(pre.voters@, env.sender@, w);
                    lemma_find_ballot_none(es, env.sender@);
                    assert(entries_unique(es.push(e))) by {
                        assert(forall|i: int| 0 <= i < es.len() ==> es.push(e)[i] == es[i]);
                        assert(es.push(e)[es.len() as int] == e);
                    }
                    assert(entries_registered(pre.voters@, es.push(e))) by {
                        assert(forall|i: int| 0 <= i < es.len() ==> es.push(e)[i] == es[i]);
                        assert(es.push(e)[es.len() as int] == e);
                    }
                    lemma_ballots_bounded(es.push(e), pre.voters@);
                    assert(sum_ballot_weights(es.push(e)) == sum_ballot_weights(es) + w) by {
                        assert(es.push(e).drop_last() =~= es);
                        assert(es.push(e).last() == e);
                    }
                    assert(p.votes.spec_total() + w <= pre.config.total_weight);
                    assert(post.proposals@[k].votes == p.votes.spec_add(vote, w));
                }
            },
            _ => {},
        }
    }
}

/// The weight the given rows report for one choice.
pub open spec fn sum_vote_info_weights_for(rows: Seq<VoteInfo>, choice: Vote) -> int
    decreases rows.len(),
{
    if rows.len() == 0 {
        0
    } else {
        sum_vote_info_weights_for(rows.drop_last(), choice) + if rows.last().vote == choice {
            rows.last().weight as int
        } else {
            0
        }
    }
}

proof fn lemma_rows_fold(entries: Seq<BallotEntry>, proposal_id: u64, choice: Vote)
    ensures
        sum_vote_info_weights_for(spec_vote_infos(entries, proposal_id), choice)
            == sum_ballot_weights_for(entries, choice),
    decreases entries.len(),
{
    if entries.len() > 0 {
        lemma_rows_fold(entries.drop_last(), proposal_id, choice);
        let rows = spec_vote_infos(entries, proposal_id);
        assert(rows.drop_last() =~= spec_vote_infos(entries.drop_last(), proposal_id));
    }
}

/// A proposal's persisted tally is exactly the fold of its cast ballots, the
/// proposer's seeded Yes vote included: summing the listed rows per choice
/// gives each tally bucket.
pub proof fn lemma_tally_is_ballot_fold(s: GovState, proposal_id: u64, r: VoteListResponse)
    requires
        s.wf(),
        1 <= proposal_id <= s.proposals@.len(),
        list_votes_post(s, proposal_id, r),
    ensures
        s.proposals@[proposal_id - 1].votes.yes == sum_vote_info_weights_for(
            r.votes@,
            Vote::Yes,
        ),
        s.proposals@[proposal_id - 1].votes.no == sum_vote_info_weights_for(r.votes@, Vote::No),
        s.proposals@[proposal_id - 1].votes.abstain == sum_vote_info_weights_for(
            r.votes@,
            Vote::Abstain,
        ),
        s.proposals@[proposal_id - 1].votes.veto == sum_vote_info_weights_for(
            r.votes@,
            Vote::Veto,
        ),
{
    assert(s.proposal_wf(proposal_id - 1));
    let es = s.ballots@[proposal_id - 1]@;
    lemma_rows_fold(es, proposal_id, Vote::Yes);
    lemma_rows_fold(es, proposal_id, Vote::No);
    lemma_rows_fold(es, proposal_id, Vote::Abstain);
    lemma_rows_fold(es, proposal_id, Vote::Veto);
}

/// A ballot, once cast, is immutable: a second vote by the same voter on the
/// same proposal — the voter still eligible, the proposal still open and
/// unexpired — always fails as a duplicate and leaves the state, tally
/// included, exactly as it was.
pub proof fn lemma_second_vote_rejected(
    pre: GovState,
    post: GovState,
    env: Env,
    proposal_id: u64,
    vote: Vote,
    r: Result<HandleResponse, ContractError>,
)
    requires
        vote_post(pre, post, env, proposal_id, vote, r),
        spec_voter_weight(pre.voters@, env.sender@) matches Some(w) && w >= 1,
        1 <= proposal_id <= pre.proposals@.len(),
        pre.proposals@[proposal_id - 1].status == Status::Open,
        !pre.proposals@[proposal_id - 1].expires.spec_is_expired(env.block),
        spec_find_ballot(pre.ballots@[proposal_id - 1]@, env.sender@) is Some,
    ensures
        r == Err::<HandleResponse, ContractError>(ContractError::AlreadyVoted),
        post == pre,
{
}

/// Execution succeeds exactly when the proposal exists and its status is
/// exactly passed.
pub proof fn lemma_execute_iff(
    pre: GovState,
    post: GovState,
    env: Env,
    proposal_id: u64,
    r: Result<HandleResponse, ContractError>,
)
    requires
        execute_post(pre, post, env, proposal_id, r),
    ensures
        r is Ok <==> (1 <= proposal_id <= pre.proposals@.len() && pre.proposals@[proposal_id
            - 1].status == Status::Passed),
{
}

/// Closing succeeds exactly when the proposal exists, its status is open or
/// pending, and its voting window has elapsed.
pub proof fn lemma_close_iff(
    pre: GovState,
    post: GovState,
    env: Env,
    proposal_id: u64,
    r: Result<HandleResponse, ContractError>,
)
    requires
        close_post(pre, post, env, proposal_id, r),
    ensures
        r is Ok <==> (1 <= proposal_id <= pre.proposals@.len() && (pre.proposals@[proposal_id
            - 1].status == Status::Open || pre.proposals@[proposal_id - 1].status
            == Status::Pending) && pre.proposals@[proposal_id - 1].expires.spec_is_expired(
            env.block,
        )),
{
}

} // verus!
