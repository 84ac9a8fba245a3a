use fixed_multisig::contract::{handle, init, query, Env, GovState};
use fixed_multisig::error::ContractError;
use fixed_multisig::expiration::{BlockInfo, Duration, Expiration};
use fixed_multisig::msg::{HandleMsg, InitMsg, QueryMsg, Status, Vote, Voter};
use fixed_multisig::query::QueryAnswer;
use fixed_multisig::threshold::{Decimal, Threshold, ThresholdError, ThresholdResponse};

const OWNER: &str = "admin0001";
const VOTER1: &str = "voter0001";
const VOTER2: &str = "voter0002";
const VOTER3: &str = "voter0003";
const VOTER4: &str = "voter0004";
const VOTER5: &str = "voter0005";
const NOWEIGHT_VOTER: &str = "voterxxxx";
const SOMEBODY: &str = "somebody";

fn env_at(sender: &str) -> Env {
    Env {
        block: BlockInfo { height: 12_345, time: 1_571_797_419 },
        sender: sender.to_string(),
    }
}

fn member(addr: &str, weight: u64) -> Voter {
    Voter { addr: addr.to_string(), weight }
}

fn setup_engine(threshold: Threshold, max_voting_period: Duration) -> GovState {
    let voters = vec![
        member(OWNER, 1),
        member(VOTER1, 1),
        member(VOTER2, 2),
        member(VOTER3, 3),
        member(VOTER4, 4),
        member(VOTER5, 5),
        member(NOWEIGHT_VOTER, 0),
    ];
    init(InitMsg { voters, threshold, max_voting_period }).unwrap()
}

fn plain_proposal(title: &str) -> HandleMsg {
    HandleMsg::Propose {
        title: title.to_string(),
        description: "a question for the members".to_string(),
        msgs: vec![b"opaque payload".to_vec()],
        latest: None,
    }
}

fn vote_msg(proposal_id: u64, vote: Vote) -> HandleMsg {
    HandleMsg::Vote { proposal_id, vote }
}

fn proposal_status(state: &GovState, proposal_id: u64) -> Status {
    match query(state, QueryMsg::Proposal { proposal_id }).unwrap() {
        QueryAnswer::Proposal(resp) => resp.status,
        _ => panic!("wrong query answer"),
    }
}

#[test]
fn percentage_passes_at_exact_ceiling() {
    // Half of the total weight 16 is exactly 8, so the rounded-up requirement
    // is met at 8 and not at 7.
    let threshold = Threshold::AbsolutePercentage { percentage: Decimal::percent(50) };
    let mut state = setup_engine(threshold, Duration::Time(2000000));

    let res = handle(&mut state, &env_at(VOTER3), plain_proposal("by half")).unwrap();
    let id = res.proposal_id;
    assert_eq!(res.status, Some(Status::Open)); // yes = 3

    let res = handle(&mut state, &env_at(VOTER4), vote_msg(id, Vote::Yes)).unwrap();
    assert_eq!(res.status, Some(Status::Open)); // yes = 7 < 8

    let res = handle(&mut state, &env_at(VOTER1), vote_msg(id, Vote::Yes)).unwrap();
    assert_eq!(res.status, Some(Status::Passed)); // yes = 8 >= 8
}

#[test]
fn percentage_rejects_when_unreachable() {
    // Requirement is 8 out of 16: once the No weight exceeds 8, the Yes side
    // can no longer reach it even if everyone else votes Yes.
    let threshold = Threshold::AbsolutePercentage { percentage: Decimal::percent(50) };
    let mut state = setup_engine(threshold, Duration::Time(2000000));

    let res = handle(&mut state, &env_at(OWNER), plain_proposal("doomed")).unwrap();
    let id = res.proposal_id;

    let res = handle(&mut state, &env_at(VOTER5), vote_msg(id, Vote::No)).unwrap();
    assert_eq!(res.status, Some(Status::Open)); // no = 5, 16 - 5 >= 8

    let res = handle(&mut state, &env_at(VOTER4), vote_msg(id, Vote::No)).unwrap();
    assert_eq!(res.status, Some(Status::Rejected)); // no = 9, 16 - 9 < 8
}

#[test]
fn percentage_validation_bounds() {
    // A fraction of zero or above one is malformed.
    let zero = Threshold::AbsolutePercentage { percentage: Decimal::zero() };
    assert_eq!(
        zero.validate(16),
        Err(ThresholdError::InvalidThreshold)
    );
    let over_one = Threshold::AbsolutePercentage { percentage: Decimal::percent(101) };
    assert_eq!(
        over_one.validate(16),
        Err(ThresholdError::InvalidThreshold)
    );
    let one = Threshold::AbsolutePercentage { percentage: Decimal::one() };
    assert_eq!(one.validate(16), Ok(()));
    // An absolute count above the total weight can never be reached.
    let too_heavy = Threshold::AbsoluteCount { weight: 17 };
    assert_eq!(
        too_heavy.validate(16),
        Err(ThresholdError::UnreachableWeight)
    );
    assert_eq!(Threshold::AbsoluteCount { weight: 16 }.validate(16), Ok(()));
}

#[test]
fn quorum_gates_the_threshold() {
    // Quorum: a quarter of 16 is 4. Threshold: half of the non-abstaining
    // cast weight, rounded up.
    let threshold = Threshold::ThresholdQuorum {
        threshold: Decimal::percent(50),
        quorum: Decimal::percent(25),
    };
    let mut state = setup_engine(threshold, Duration::Time(2000000));

    let res = handle(&mut state, &env_at(OWNER), plain_proposal("quorum")).unwrap();
    let id = res.proposal_id;
    assert_eq!(res.status, Some(Status::Open)); // cast 1 < 4: no quorum yet

    let res = handle(&mut state, &env_at(VOTER2), vote_msg(id, Vote::Yes)).unwrap();
    assert_eq!(res.status, Some(Status::Open)); // cast 3 < 4

    // One more yes vote reaches the quorum, and 4 yes out of 4 opinions
    // clears the 50% threshold.
    let res = handle(&mut state, &env_at(VOTER1), vote_msg(id, Vote::Yes)).unwrap();
    assert_eq!(res.status, Some(Status::Passed));
}

#[test]
fn abstain_counts_toward_quorum_only() {
    let threshold = Threshold::ThresholdQuorum {
        threshold: Decimal::percent(50),
        quorum: Decimal::percent(25),
    };
    let mut state = setup_engine(threshold, Duration::Time(2000000));

    let res = handle(&mut state, &env_at(OWNER), plain_proposal("abstain")).unwrap();
    let id = res.proposal_id;
    assert_eq!(res.status, Some(Status::Open)); // cast 1 < 4

    // Weight 3 abstains: the cast weight reaches the quorum, and the pass rule
    // is evaluated over the non-abstaining weight alone: 1 yes of 1 opinion.
    let res = handle(&mut state, &env_at(VOTER3), vote_msg(id, Vote::Abstain)).unwrap();
    assert_eq!(res.status, Some(Status::Passed));
}

#[test]
fn veto_counts_against_like_no() {
    let threshold = Threshold::ThresholdQuorum {
        threshold: Decimal::percent(50),
        quorum: Decimal::percent(25),
    };
    let mut state = setup_engine(threshold, Duration::Time(2000000));

    let res = handle(&mut state, &env_at(OWNER), plain_proposal("veto")).unwrap();
    let id = res.proposal_id;

    // Weight 3 vetoes: quorum is met, but only 1 of 4 opinions is a yes, and
    // the outcome is still reachable, so the proposal stays open.
    let res = handle(&mut state, &env_at(VOTER3), vote_msg(id, Vote::Veto)).unwrap();
    assert_eq!(res.status, Some(Status::Open));
}

#[test]
fn quorum_rejects_once_unreachable() {
    // With a 100% threshold every opinion must be a yes, so a single No vote
    // locks the outcome and rejects the proposal before its window elapses.
    let threshold = Threshold::ThresholdQuorum {
        threshold: Decimal::percent(100),
        quorum: Decimal::percent(25),
    };
    let mut state = setup_engine(threshold, Duration::Time(2000000));

    let res = handle(&mut state, &env_at(OWNER), plain_proposal("unanimous")).unwrap();
    let id = res.proposal_id;
    assert_eq!(res.status, Some(Status::Open));

    let res = handle(&mut state, &env_at(VOTER1), vote_msg(id, Vote::No)).unwrap();
    assert_eq!(res.status, Some(Status::Rejected));
}

#[test]
fn requested_expiration_is_clamped() {
    let threshold = Threshold::AbsoluteCount { weight: 3 };
    let mut state = setup_engine(threshold, Duration::Time(2000000));

    // A request later than the maximum is silently clamped down to it.
    let late = HandleMsg::Propose {
        title: "late".to_string(),
        description: "too far out".to_string(),
        msgs: vec![],
        latest: Some(Expiration::AtTime(9_999_999_999)),
    };
    let res = handle(&mut state, &env_at(OWNER), late).unwrap();
    match query(&state, QueryMsg::Proposal { proposal_id: res.proposal_id }).unwrap() {
        QueryAnswer::Proposal(resp) => {
            assert_eq!(resp.expires, Expiration::AtTime(1_571_797_419 + 2000000));
        },
        _ => panic!("wrong query answer"),
    }

    // An earlier request is kept as asked.
    let early = HandleMsg::Propose {
        title: "early".to_string(),
        description: "a short window".to_string(),
        msgs: vec![],
        latest: Some(Expiration::AtTime(1_571_797_419 + 1000)),
    };
    let res = handle(&mut state, &env_at(OWNER), early).unwrap();
    match query(&state, QueryMsg::Proposal { proposal_id: res.proposal_id }).unwrap() {
        QueryAnswer::Proposal(resp) => {
            assert_eq!(resp.expires, Expiration::AtTime(1_571_797_419 + 1000));
        },
        _ => panic!("wrong query answer"),
    }
}

#[test]
fn time_request_against_height_window_is_refused() {
    let threshold = Threshold::AbsoluteCount { weight: 3 };
    let mut state = setup_engine(threshold, Duration::Height(2000000));

    // The maximum window is height-based, so a time-based request cannot be
    // compared against it.
    let mismatched = HandleMsg::Propose {
        title: "mismatched".to_string(),
        description: "wrong unit".to_string(),
        msgs: vec![],
        latest: Some(Expiration::AtTime(1_571_797_419 + 1000)),
    };
    let err = handle(&mut state, &env_at(OWNER), mismatched).unwrap_err();
    assert_eq!(err, ContractError::WrongExpiration);
}

#[test]
fn proposal_created_expired_is_rejected_at_once() {
    let threshold = Threshold::AbsoluteCount { weight: 3 };
    let mut state = setup_engine(threshold, Duration::Height(2000000));

    // An expiration at the current height has already been reached, so the
    // refresh at creation rejects the proposal in the same step.
    let stale = HandleMsg::Propose {
        title: "stale".to_string(),
        description: "expired on arrival".to_string(),
        msgs: vec![],
        latest: Some(Expiration::AtHeight(12_345)),
    };
    let res = handle(&mut state, &env_at(OWNER), stale).unwrap();
    assert_eq!(res.status, Some(Status::Rejected));
}

#[test]
fn zero_weight_voter_rejected_whatever_the_status() {
    let threshold = Threshold::AbsoluteCount { weight: 3 };
    let mut state = setup_engine(threshold, Duration::Time(2000000));

    // Open proposal: unauthorized.
    let res = handle(&mut state, &env_at(OWNER), plain_proposal("first")).unwrap();
    let open_id = res.proposal_id;
    let err = handle(&mut state, &env_at(NOWEIGHT_VOTER), vote_msg(open_id, Vote::Yes))
        .unwrap_err();
    assert_eq!(err, ContractError::Unauthorized);

    // Passed proposal: still unauthorized, not a status error.
    let res = handle(&mut state, &env_at(VOTER4), plain_proposal("second")).unwrap();
    let passed_id = res.proposal_id;
    assert_eq!(res.status, Some(Status::Passed));
    let err = handle(&mut state, &env_at(NOWEIGHT_VOTER), vote_msg(passed_id, Vote::Yes))
        .unwrap_err();
    assert_eq!(err, ContractError::Unauthorized);
}

#[test]
fn missing_ids_are_not_found() {
    let threshold = Threshold::AbsoluteCount { weight: 3 };
    let mut state = setup_engine(threshold, Duration::Time(2000000));

    let err = handle(&mut state, &env_at(OWNER), vote_msg(1, Vote::Yes)).unwrap_err();
    assert_eq!(err, ContractError::NotFound);
    let err = handle(&mut state, &env_at(OWNER), HandleMsg::Execute { proposal_id: 7 })
        .unwrap_err();
    assert_eq!(err, ContractError::NotFound);
    let err = handle(&mut state, &env_at(OWNER), HandleMsg::Close { proposal_id: 7 })
        .unwrap_err();
    assert_eq!(err, ContractError::NotFound);
    let err = query(&state, QueryMsg::Proposal { proposal_id: 7 }).unwrap_err();
    assert_eq!(err, ContractError::NotFound);
}

#[test]
fn closed_proposal_reads_rejected() {
    let threshold = Threshold::AbsoluteCount { weight: 3 };
    let mut state = setup_engine(threshold, Duration::Height(100));

    let res = handle(&mut state, &env_at(OWNER), plain_proposal("to close")).unwrap();
    let id = res.proposal_id;
    assert_eq!(proposal_status(&state, id), Status::Open);

    let mut later = env_at(SOMEBODY);
    later.block.height += 101;
    handle(&mut state, &later, HandleMsg::Close { proposal_id: id }).unwrap();
    assert_eq!(proposal_status(&state, id), Status::Rejected);
}

#[test]
fn list_proposals_pages_ascending() {
    let threshold = Threshold::AbsoluteCount { weight: 3 };
    let mut state = setup_engine(threshold, Duration::Time(2000000));
    for i in 0..12u64 {
        let title = format!("proposal {}", i + 1);
        handle(&mut state, &env_at(OWNER), plain_proposal(&title)).unwrap();
    }

    // Default page size is ten, from the first id.
    match query(&state, QueryMsg::ListProposals { start_after: None, limit: None }).unwrap() {
        QueryAnswer::ProposalList(lst) => {
            let ids: Vec<u64> = lst.proposals.iter().map(|p| p.id).collect();
            assert_eq!(ids, (1..=10).collect::<Vec<u64>>());
        },
        _ => panic!("wrong query answer"),
    }

    // The requested size is capped at thirty and by the highest id.
    match query(
        &state,
        QueryMsg::ListProposals { start_after: None, limit: Some(50) },
    )
    .unwrap()
    {
        QueryAnswer::ProposalList(lst) => {
            assert_eq!(lst.proposals.len(), 12);
            assert_eq!(lst.proposals[11].title, "proposal 12".to_string());
        },
        _ => panic!("wrong query answer"),
    }

    // The page starts strictly after the given id.
    match query(
        &state,
        QueryMsg::ListProposals { start_after: Some(5), limit: None },
    )
    .unwrap()
    {
        QueryAnswer::ProposalList(lst) => {
            let ids: Vec<u64> = lst.proposals.iter().map(|p| p.id).collect();
            assert_eq!(ids, (6..=12).collect::<Vec<u64>>());
        },
        _ => panic!("wrong query answer"),
    }

    // Starting after id zero lists from the first id.
    match query(
        &state,
        QueryMsg::ListProposals { start_after: Some(0), limit: None },
    )
    .unwrap()
    {
        QueryAnswer::ProposalList(lst) => {
            let ids: Vec<u64> = lst.proposals.iter().map(|p| p.id).collect();
            assert_eq!(ids, (1..=10).collect::<Vec<u64>>());
        },
        _ => panic!("wrong query answer"),
    }

    // When fewer proposals remain than the page size, the page is short; when
    // none remain, it is empty.
    match query(
        &state,
        QueryMsg::ListProposals { start_after: Some(11), limit: None },
    )
    .unwrap()
    {
        QueryAnswer::ProposalList(lst) => {
            let ids: Vec<u64> = lst.proposals.iter().map(|p| p.id).collect();
            assert_eq!(ids, vec![12]);
        },
        _ => panic!("wrong query answer"),
    }
    match query(
        &state,
        QueryMsg::ListProposals { start_after: Some(12), limit: None },
    )
    .unwrap()
    {
        QueryAnswer::ProposalList(lst) => assert!(lst.proposals.is_empty()),
        _ => panic!("wrong query answer"),
    }
}

#[test]
fn reverse_proposals_pages_descending() {
    let threshold = Threshold::AbsoluteCount { weight: 3 };
    let mut state = setup_engine(threshold, Duration::Time(2000000));
    for i in 0..12u64 {
        let title = format!("proposal {}", i + 1);
        handle(&mut state, &env_at(OWNER), plain_proposal(&title)).unwrap();
    }

    // Default page size is ten, downward from the newest id.
    match query(
        &state,
        QueryMsg::ReverseProposals { start_before: None, limit: None },
    )
    .unwrap()
    {
        QueryAnswer::ProposalList(lst) => {
            let ids: Vec<u64> = lst.proposals.iter().map(|p| p.id).collect();
            assert_eq!(ids, (3..=12).rev().collect::<Vec<u64>>());
        },
        _ => panic!("wrong query answer"),
    }

    // A page that reaches the first id is simply short.
    match query(
        &state,
        QueryMsg::ReverseProposals { start_before: Some(2), limit: None },
    )
    .unwrap()
    {
        QueryAnswer::ProposalList(lst) => {
            let ids: Vec<u64> = lst.proposals.iter().map(|p| p.id).collect();
            assert_eq!(ids, vec![1]);
        },
        _ => panic!("wrong query answer"),
    }

    // The page starts strictly below the given id.
    match query(
        &state,
        QueryMsg::ReverseProposals { start_before: Some(4), limit: Some(4) },
    )
    .unwrap()
    {
        QueryAnswer::ProposalList(lst) => {
            let ids: Vec<u64> = lst.proposals.iter().map(|p| p.id).collect();
            assert_eq!(ids, vec![3, 2, 1]);
        },
        _ => panic!("wrong query answer"),
    }

    // Nothing lies below id zero.
    match query(
        &state,
        QueryMsg::ReverseProposals { start_before: Some(0), limit: None },
    )
    .unwrap()
    {
        QueryAnswer::ProposalList(lst) => assert!(lst.proposals.is_empty()),
        _ => panic!("wrong query answer"),
    }
}

#[test]
fn queries_report_the_registry() {
    let threshold = Threshold::AbsoluteCount { weight: 3 };
    let mut state = setup_engine(threshold, Duration::Time(2000000));

    // The threshold summary pairs the rule with the total weight.
    match query(&state, QueryMsg::Threshold {}).unwrap() {
        QueryAnswer::Threshold(resp) => {
            assert_eq!(
                resp,
                ThresholdResponse::AbsoluteCount { weight: 3, total_weight: 16 }
            );
        },
        _ => panic!("wrong query answer"),
    }

    // A voter's weight, and an unknown address.
    match query(&state, QueryMsg::Voter { address: VOTER4.to_string() }).unwrap() {
        QueryAnswer::Voter(resp) => assert_eq!(resp.weight, Some(4)),
        _ => panic!("wrong query answer"),
    }
    match query(&state, QueryMsg::Voter { address: SOMEBODY.to_string() }).unwrap() {
        QueryAnswer::Voter(resp) => assert_eq!(resp.weight, None),
        _ => panic!("wrong query answer"),
    }

    // The full voter list, in registration order.
    match query(
        &state,
        QueryMsg::ListVoters { start_after: None, limit: None },
    )
    .unwrap()
    {
        QueryAnswer::VoterList(resp) => {
            assert_eq!(resp.voters.len(), 7);
            assert_eq!(resp.voters[0].addr, OWNER.to_string());
            assert_eq!(resp.voters[5].weight, 5);
        },
        _ => panic!("wrong query answer"),
    }

    // A recorded ballot, and the absence of one.
    let res = handle(&mut state, &env_at(OWNER), plain_proposal("ballots")).unwrap();
    let id = res.proposal_id;
    match query(
        &state,
        QueryMsg::Vote { proposal_id: id, voter: OWNER.to_string() },
    )
    .unwrap()
    {
        QueryAnswer::Vote(resp) => {
            let info = resp.vote.unwrap();
            assert_eq!(info.vote, Vote::Yes);
            assert_eq!(info.weight, 1);
            assert_eq!(info.voter, OWNER.to_string());
        },
        _ => panic!("wrong query answer"),
    }
    match query(
        &state,
        QueryMsg::Vote { proposal_id: id, voter: VOTER1.to_string() },
    )
    .unwrap()
    {
        QueryAnswer::Vote(resp) => assert!(resp.vote.is_none()),
        _ => panic!("wrong query answer"),
    }
}

#[test]
fn duplicate_registration_last_weight_wins() {
    // The registry lookup behaves like a keyed store written in list order:
    // of two entries for one address, the last write wins, while the total
    // weight sums everything that was listed.
    let voters = vec![member(OWNER, 3), member(OWNER, 5)];
    let threshold = Threshold::AbsoluteCount { weight: 1 };
    let mut state = init(InitMsg {
        voters,
        threshold,
        max_voting_period: Duration::Time(2000000),
    })
    .unwrap();

    match query(&state, QueryMsg::Voter { address: OWNER.to_string() }).unwrap() {
        QueryAnswer::Voter(resp) => assert_eq!(resp.weight, Some(5)),
        _ => panic!("wrong query answer"),
    }
    match query(&state, QueryMsg::Threshold {}).unwrap() {
        QueryAnswer::Threshold(resp) => {
            assert_eq!(
                resp,
                ThresholdResponse::AbsoluteCount { weight: 1, total_weight: 8 }
            );
        },
        _ => panic!("wrong query answer"),
    }

    // The one ballot the duplicated voter casts is reported once, at the
    // weight captured when it was cast.
    let res = handle(&mut state, &env_at(OWNER), plain_proposal("dup")).unwrap();
    let id = res.proposal_id;
    match query(
        &state,
        QueryMsg::ListVotes { proposal_id: id, start_after: None, limit: None },
    )
    .unwrap()
    {
        QueryAnswer::VoteList(resp) => {
            assert_eq!(resp.votes.len(), 1);
            assert_eq!(resp.votes[0].voter, OWNER.to_string());
            assert_eq!(resp.votes[0].vote, Vote::Yes);
            assert_eq!(resp.votes[0].weight, 5);
        },
        _ => panic!("wrong query answer"),
    }
}

#[test]
fn list_votes_reports_every_ballot() {
    let threshold = Threshold::AbsoluteCount { weight: 6 };
    let mut state = setup_engine(threshold, Duration::Time(2000000));

    let res = handle(&mut state, &env_at(OWNER), plain_proposal("tally")).unwrap();
    let id = res.proposal_id;
    handle(&mut state, &env_at(VOTER2), vote_msg(id, Vote::Yes)).unwrap();
    handle(&mut state, &env_at(VOTER3), vote_msg(id, Vote::No)).unwrap();

    match query(
        &state,
        QueryMsg::ListVotes { proposal_id: id, start_after: None, limit: None },
    )
    .unwrap()
    {
        QueryAnswer::VoteList(resp) => {
            assert_eq!(resp.votes.len(), 3);
            let voters: Vec<String> = resp.votes.iter().map(|v| v.voter.clone()).collect();
            assert_eq!(
                voters,
                vec![OWNER.to_string(), VOTER2.to_string(), VOTER3.to_string()]
            );
            assert_eq!(resp.votes[1].vote, Vote::Yes);
            assert_eq!(resp.votes[2].vote, Vote::No);
            assert_eq!(resp.votes[2].weight, 3);
        },
        _ => panic!("wrong query answer"),
    }
}
