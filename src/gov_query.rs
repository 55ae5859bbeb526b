//! Read-only views of proposals and ballots, with the paging rules of the
//! listing queries.

use vstd::prelude::*;
use crate::bindings::{duplicate_messages, same_actions, ComdexMessages};
use crate::decimal::Decimal;
use crate::gov_state::{AppGovConfig, Ballot, Duration, Expiration, Proposal, Status, ThresholdQuorum, Vote, Votes};
use crate::governance::{config_valid, rule_of, Config, ContractError};
use crate::types::{BlockInfo, Timestamp};

verus! {

/// The largest page a listing returns.
pub const MAX_LIMIT: u32 = 300;

/// The page a listing returns when the caller names none.
pub const DEFAULT_LIMIT: u32 = 100;

/// A voting rule together with the weight it applies to.
#[derive(Clone, Copy, Debug, PartialEq, Eq, Structural)]
pub struct ThresholdResponse {
    pub threshold: Decimal,
    pub quorum: Decimal,
    pub total_weight: u128,
}

/// A stored proposal and its id.
#[derive(Clone, Debug, PartialEq, Eq)]
pub struct AppProposalConfig {
    pub proposal_id: u64,
    pub proposal: Proposal,
}

/// A proposal as the listing queries show it.
#[derive(Clone, Debug, PartialEq, Eq)]
pub struct ProposalResponse {
    pub id: u64,
    pub title: String,
    pub description: String,
    pub msgs: Vec<ComdexMessages>,
    pub status: Status,
    pub expires: Expiration,
    pub threshold: ThresholdResponse,
}

/// A proposal in full, with its status read at the query's block.
#[derive(Clone, Debug, PartialEq, Eq)]
pub struct ProposalResponseTotal {
    pub id: u64,
    pub title: String,
    pub start_time: Timestamp,
    pub description: String,
    pub start_height: u64,
    pub expires: Expiration,
    pub msgs: Vec<ComdexMessages>,
    pub status: Status,
    pub duration: Duration,
    pub threshold: ThresholdQuorum,
    pub total_weight: u128,
    pub votes: Votes,
    pub proposer: String,
    pub token_denom: String,
    pub current_deposit: u128,
}

/// A page of an app's proposals, and how many there are in all.
#[derive(Clone, Debug, PartialEq, Eq)]
pub struct AppProposalResponse {
    pub proposals: Vec<ProposalResponseTotal>,
    pub proposal_count: u64,
}

/// A voter's ballot on a proposal.
#[derive(Clone, Debug, PartialEq, Eq)]
pub struct VoteInfo {
    pub proposal_id: u64,
    pub voter: String,
    pub vote: Vote,
    pub weight: u128,
}

#[derive(Clone, Debug, PartialEq, Eq)]
pub struct VoteResponse {
    pub vote: Option<VoteInfo>,
}

/// A stored ballot and its voter.
#[derive(Clone, Debug, PartialEq, Eq)]
pub struct VoterBallot {
    pub voter: String,
    pub ballot: Ballot,
}

/// The page size a listing uses: the one asked for, at most the maximum.
pub open spec fn page_size(limit: Option<u32>) -> int {
    let asked = match limit {
        Some(l) => l,
        None => DEFAULT_LIMIT,
    };
    if asked < MAX_LIMIT {
        asked as int
    } else {
        MAX_LIMIT as int
    }
}

pub fn page_limit(limit: Option<u32>) -> (r: usize)
    ensures
        r == page_size(limit),
{
    let asked = match limit {
        Some(l) => l,
        None => DEFAULT_LIMIT,
    };
    if asked < MAX_LIMIT {
        asked as usize
    } else {
        MAX_LIMIT as usize
    }
}

/// The rule of the configuration with the proposal's total weight.
pub fn query_threshold(config: &Config, prop: &Proposal) -> (r: ThresholdResponse)
    requires
        config_valid(*config),
    ensures
        r == (ThresholdResponse {
            threshold: rule_of(*config).threshold,
            quorum: rule_of(*config).quorum,
            total_weight: prop.total_weight,
        }),
{
    let rule = crate::governance::threshold_quorum(config);
    ThresholdResponse {
        threshold: rule.threshold,
        quorum: rule.quorum,
        total_weight: prop.total_weight,
    }
}

/// `resp` shows proposal `id` in full as read at `block`.
pub open spec fn details(resp: ProposalResponseTotal, id: u64, p: Proposal, block: BlockInfo) -> bool {
    &&& resp.id == id
    &&& resp.title == p.title
    &&& resp.start_time == p.start_time
    &&& resp.description == p.description
    &&& resp.start_height == p.start_height
    &&& resp.expires == p.expires
    &&& same_actions(resp.msgs@, p.msgs@)
    &&& resp.status == p.status_at(block)
    &&& resp.duration == p.duration
    &&& resp.threshold == p.threshold
    &&& resp.total_weight == p.total_weight
    &&& resp.votes == p.votes
    &&& resp.proposer == p.proposer
    &&& resp.token_denom == p.token_denom
    &&& resp.current_deposit == p.current_deposit
}

/// A proposal in full, its status read at `block`.
pub fn query_proposal_detailed(id: u64, prop: &Proposal, block: &BlockInfo) -> (r: ProposalResponseTotal)
    requires
        prop.well_formed(),
    ensures
        details(r, id, *prop, *block),
{
    ProposalResponseTotal {
        id,
        title: prop.title.clone(),
        start_time: prop.start_time,
        description: prop.description.clone(),
        start_height: prop.start_height,
        expires: prop.expires,
        msgs: duplicate_messages(&prop.msgs),
        status: prop.current_status(block),
        duration: prop.duration,
        threshold: prop.threshold,
        total_weight: prop.total_weight,
        votes: prop.votes,
        proposer: prop.proposer.clone(),
        token_denom: prop.token_denom.clone(),
        current_deposit: prop.current_deposit,
    }
}

/// `resp` shows the stored entry as read at `block`.
pub open spec fn summarises(resp: ProposalResponse, e: AppProposalConfig, block: BlockInfo) -> bool {
    &&& resp.id == e.proposal_id
    &&& resp.title == e.proposal.title
    &&& resp.description == e.proposal.description
    &&& same_actions(resp.msgs@, e.proposal.msgs@)
    &&& resp.status == e.proposal.status_at(block)
    &&& resp.expires == e.proposal.expires
    &&& resp.threshold == (ThresholdResponse {
        threshold: e.proposal.threshold.threshold,
        quorum: e.proposal.threshold.quorum,
        total_weight: e.proposal.total_weight,
    })
}

pub fn map_proposal(block: &BlockInfo, e: &AppProposalConfig) -> (r: ProposalResponse)
    requires
        e.proposal.well_formed(),
    ensures
        summarises(r, *e, *block),
{
    ProposalResponse {
        id: e.proposal_id,
        title: e.proposal.title.clone(),
        description: e.proposal.description.clone(),
        msgs: duplicate_messages(&e.proposal.msgs),
        status: e.proposal.current_status(block),
        expires: e.proposal.expires,
        threshold: ThresholdResponse {
            threshold: e.proposal.threshold.threshold,
            quorum: e.proposal.threshold.quorum,
            total_weight: e.proposal.total_weight,
        },
    }
}

/// Every stored proposal is well formed.
pub open spec fn entries_well_formed(entries: Seq<AppProposalConfig>) -> bool {
    forall|i: int| 0 <= i < entries.len() ==> (#[trigger] entries[i]).proposal.well_formed()
}

/// The minimum of two integers.
pub open spec fn min_of(a: int, b: int) -> int {
    if a < b {
        a
    } else {
        b
    }
}

/// `r` is the page of `entries` from index `k` on, in ascending order, and
/// `k` skips exactly the ids up to `start_after`.
pub open spec fn ascending_page(
    entries: Seq<AppProposalConfig>,
    r: Seq<ProposalResponse>,
    k: int,
    start_after: Option<u64>,
    limit: Option<u32>,
    block: BlockInfo,
) -> bool {
    &&& 0 <= k <= entries.len()
    &&& forall|j: int|
        0 <= j < k ==> start_after is Some && (#[trigger] entries[j]).proposal_id <= start_after->Some_0
    &&& k < entries.len() ==> start_after is None || entries[k].proposal_id > start_after->Some_0
    &&& r.len() == min_of(page_size(limit), entries.len() - k)
    &&& forall|i: int| 0 <= i < r.len() ==> summarises(#[trigger] r[i], entries[k + i], block)
}

/// `r` is the page of `entries` below index `k`, in descending order, and
/// `k` leaves out exactly the ids from `start_before` on.
pub open spec fn descending_page(
    entries: Seq<AppProposalConfig>,
    r: Seq<ProposalResponse>,
    k: int,
    start_before: Option<u64>,
    limit: Option<u32>,
    block: BlockInfo,
) -> bool {
    &&& 0 <= k <= entries.len()
    &&& forall|j: int|
        k <= j < entries.len() ==> start_before is Some && (#[trigger] entries[j]).proposal_id
            >= start_before->Some_0
    &&& k > 0 ==> start_before is None || entries[k - 1].proposal_id < start_before->Some_0
    &&& r.len() == min_of(page_size(limit), k)
    &&& forall|i: int| 0 <= i < r.len() ==> summarises(#[trigger] r[i], entries[k - 1 - i], block)
}

/// Proposals in ascending order of id, after `start_after` where it is
/// given, one page of them.
pub fn list_proposals(
    entries: &Vec<AppProposalConfig>,
    block: &BlockInfo,
    start_after: Option<u64>,
    limit: Option<u32>,
) -> (r: Vec<ProposalResponse>)
    requires
        entries_well_formed(entries@),
        forall|i: int, j: int| 0 <= i < j < entries@.len() ==> entries@[i].proposal_id < entries@[j].proposal_id,
    ensures
        exists|k: int| ascending_page(entries@, r@, k, start_after, limit, *block),
{
    let size = page_limit(limit);
    let mut k: usize = 0;
    match start_after {
        Some(s) => {
            while k < entries.len() && entries[k].proposal_id <= s
                invariant
                    k <= entries@.len(),
                    forall|j: int| 0 <= j < k ==> (#[trigger] entries@[j]).proposal_id <= s,
                decreases entries@.len() - k,
            {
                k = k + 1;
            }
        },
        None => {},
    }
    let mut r: Vec<ProposalResponse> = Vec::new();
    let mut i: usize = k;
    while i < entries.len() && r.len() < size
        invariant
            k <= i <= entries@.len(),
            r@.len() == i - k,
            r@.len() <= size,
            entries_well_formed(entries@),
            forall|t: int| 0 <= t < r@.len() ==> summarises(#[trigger] r@[t], entries@[k + t], *block),
        decreases entries@.len() - i,
    {
        r.push(map_proposal(block, &entries[i]));
        i = i + 1;
    }
    assert(ascending_page(entries@, r@, k as int, start_after, limit, *block));
    r
}

/// Proposals in descending order of id, before `start_before` where it is
/// given, one page of them.
pub fn reverse_proposals(
    entries: &Vec<AppProposalConfig>,
    block: &BlockInfo,
    start_before: Option<u64>,
    limit: Option<u32>,
) -> (r: Vec<ProposalResponse>)
    requires
        entries_well_formed(entries@),
        forall|i: int, j: int| 0 <= i < j < entries@.len() ==> entries@[i].proposal_id < entries@[j].proposal_id,
    ensures
        exists|k: int| descending_page(entries@, r@, k, start_before, limit, *block),
{
    let size = page_limit(limit);
    let mut k: usize = entries.len();
    match start_before {
        Some(s) => {
            while k > 0 && entries[k - 1].proposal_id >= s
                invariant
                    k <= entries@.len(),
                    forall|j: int| k <= j < entries@.len() ==> (#[trigger] entries@[j]).proposal_id >= s,
                decreases k,
            {
                k = k - 1;
            }
        },
        None => {},
    }
    let mut r: Vec<ProposalResponse> = Vec::new();
    let mut i: usize = k;
    while i > 0 && r.len() < size
        invariant
            i <= k <= entries@.len(),
            r@.len() == k - i,
            r@.len() <= size,
            entries_well_formed(entries@),
            forall|t: int| 0 <= t < r@.len() ==> summarises(#[trigger] r@[t], entries@[k - 1 - t], *block),
        decreases i,
    {
        r.push(map_proposal(block, &entries[i - 1]));
        i = i - 1;
    }
    assert(descending_page(entries@, r@, k as int, start_before, limit, *block));
    r
}

/// An app's proposals, newest first, those with `status` only where it is
/// given.
pub open spec fn app_selection(all: Seq<ProposalResponseTotal>, status: Option<Status>) -> Seq<
    ProposalResponseTotal,
>
    decreases all.len(),
{
    if all.len() == 0 {
        Seq::empty()
    } else {
        let rest = app_selection(all.drop_last(), status);
        if status is None || all.last().status == status->Some_0 {
            seq![all.last()] + rest
        } else {
            rest
        }
    }
}

/// The page of a selection that skips `start` items and keeps `size`.
pub open spec fn page_of(sel: Seq<ProposalResponseTotal>, start: int, size: int) -> Seq<
    ProposalResponseTotal,
> {
    if start >= sel.len() {
        Seq::empty()
    } else {
        sel.subrange(start, min_of(start + size, sel.len() as int))
    }
}

/// A page of an app's proposals: newest first, filtered by status where one
/// is given, skipping `start_after` of them; with the number of proposals
/// the filter keeps.
pub fn get_proposals_by_app(
    all: Vec<ProposalResponseTotal>,
    start_after: u32,
    limit: Option<u32>,
    status: Option<Status>,
) -> (r: AppProposalResponse)
    requires
        all@.len() <= u64::MAX,
    ensures
        r.proposal_count == app_selection(all@, status).len(),
        r.proposals@ == page_of(
            app_selection(all@, status),
            start_after as int,
            page_size(limit),
        ),
{
    let ghost whole = all@;
    let ghost whole_len = all.len();
    let size = page_limit(limit);
    let start = start_after as usize;
    let mut rest = all;
    let mut kept: usize = 0;
    let ghost mut chosen: Seq<ProposalResponseTotal> = Seq::empty();
    let mut proposals: Vec<ProposalResponseTotal> = Vec::new();
    assert(rest@.subrange(0, rest@.len() as int) =~= rest@);
    while rest.len() > 0
        invariant
            rest@ == whole.subrange(0, rest@.len() as int),
            whole.len() <= u64::MAX,
            whole.len() == whole_len,
            whole_len <= usize::MAX,
            chosen + app_selection(rest@, status) == app_selection(whole, status),
            kept == chosen.len(),
            kept <= whole.len() - rest@.len(),
            proposals@ == page_of(chosen, start as int, size as int),
        decreases rest@.len(),
    {
        let ghost before = rest@;
        let item = rest.pop().unwrap();
        proof {
            assert(before.drop_last() =~= rest@);
            assert(before.last() == item);
            assert(rest@ =~= whole.subrange(0, rest@.len() as int));
        }
        let keep = match status {
            None => true,
            Some(s) => item.status == s,
        };
        if keep {
            proof {
                assert(chosen.push(item) + app_selection(rest@, status) =~= chosen + (seq![item]
                    + app_selection(rest@, status)));
                chosen = chosen.push(item);
            }
            assert(kept < whole_len);
            if kept >= start && kept - start < size {
                proposals.push(item);
            }
            kept = kept + 1;
            proof {
                if kept - 1 >= start && kept - 1 - start < size {
                    assert(proposals@ =~= page_of(chosen, start as int, size as int));
                } else {
                    assert(page_of(chosen, start as int, size as int) =~= page_of(
                        chosen.drop_last(),
                        start as int,
                        size as int,
                    ));
                }
            }
        }
    }
    assert(chosen =~= app_selection(whole, status));
    AppProposalResponse { proposals, proposal_count: kept as u64 }
}

/// The weight cast on each of the given proposals, summed.
pub open spec fn cast_weight(all: Seq<ProposalResponseTotal>) -> int
    decreases all.len(),
{
    if all.len() == 0 {
        0
    } else {
        cast_weight(all.drop_last()) + all.last().votes.total_spec()
    }
}

/// An app's participation: the live supply of its governance token and the
/// weight cast on all of its proposals; `Overflow` where the sum does not fit.
pub fn get_all_up_info_by_app(
    info: &AppGovConfig,
    current_supply: u64,
    all: &Vec<ProposalResponseTotal>,
) -> (r: Result<AppGovConfig, ContractError>)
    ensures
        cast_weight(all@) <= u128::MAX ==> r == Ok::<AppGovConfig, ContractError>(
            AppGovConfig {
                current_supply: current_supply as u128,
                active_participation_supply: cast_weight(all@) as u128,
                ..*info
            },
        ),
        cast_weight(all@) > u128::MAX ==> r == Err::<AppGovConfig, ContractError>(
            ContractError::Overflow {  },
        ),
{
    let mut total: u128 = 0;
    let mut i: usize = 0;
    while i < all.len()
        invariant
            i <= all@.len(),
            total == cast_weight(all@.subrange(0, i as int)),
        decreases all@.len() - i,
    {
        assert(all@.subrange(0, i as int + 1).drop_last() =~= all@.subrange(0, i as int));
        let v = all[i].votes;
        if v.yes > u128::MAX - v.no || v.yes + v.no > u128::MAX - v.abstain || v.yes + v.no
            + v.abstain > u128::MAX - v.veto || total > u128::MAX - v.total() {
            proof {
                lemma_cast_weight_grows(all@, i as int + 1);
            }
            return Err(ContractError::Overflow {  });
        }
        total = total + v.total();
        i = i + 1;
    }
    assert(all@.subrange(0, all@.len() as int) =~= all@);
    Ok(
        AppGovConfig {
            proposal_count: info.proposal_count,
            current_supply: current_supply as u128,
            active_participation_supply: total,
        },
    )
}

proof fn lemma_cast_weight_grows(all: Seq<ProposalResponseTotal>, n: int)
    requires
        0 <= n <= all.len(),
    ensures
        cast_weight(all) >= cast_weight(all.subrange(0, n)),
    decreases all.len() - n,
{
    if n < all.len() {
        lemma_cast_weight_grows(all, n + 1);
        assert(all.subrange(0, n + 1).drop_last() =~= all.subrange(0, n));
    } else {
        assert(all.subrange(0, n) =~= all);
    }
}

/// The voter's ballot on the proposal, where there is one.
pub fn query_vote(proposal_id: u64, voter: String, ballot: Option<Ballot>) -> (r: VoteResponse)
    ensures
        match ballot {
            Some(b) => r.vote == Some(
                VoteInfo { proposal_id, voter, vote: b.vote, weight: b.weight },
            ),
            None => r.vote is None,
        },
{
    match ballot {
        Some(b) => VoteResponse {
            vote: Some(VoteInfo { proposal_id, voter, vote: b.vote, weight: b.weight }),
        },
        None => VoteResponse { vote: None },
    }
}

/// One page of the ballots on a proposal, in the order given.
pub fn list_votes(proposal_id: u64, ballots: &Vec<VoterBallot>, limit: Option<u32>) -> (r: Vec<
    VoteInfo,
>)
    ensures
        r@.len() == min_of(page_size(limit), ballots@.len() as int),
        forall|i: int|
            0 <= i < r@.len() ==> #[trigger] r@[i] == (VoteInfo {
                proposal_id,
                voter: ballots@[i].voter,
                vote: ballots@[i].ballot.vote,
                weight: ballots@[i].ballot.weight,
            }),
{
    let size = page_limit(limit);
    let mut r: Vec<VoteInfo> = Vec::new();
    let mut i: usize = 0;
    while i < ballots.len() && i < size
        invariant
            i <= ballots@.len(),
            r@.len() == i,
            i <= size,
            forall|t: int|
                0 <= t < i ==> #[trigger] r@[t] == (VoteInfo {
                    proposal_id,
                    voter: ballots@[t].voter,
                    vote: ballots@[t].ballot.vote,
                    weight: ballots@[t].ballot.weight,
                }),
        decreases ballots@.len() - i,
    {
        r.push(
            VoteInfo {
                proposal_id,
                voter: ballots[i].voter.clone(),
                vote: ballots[i].ballot.vote,
                weight: ballots[i].ballot.weight,
            },
        );
        i = i + 1;
    }
    r
}

/// An app's figures once it has one more proposal, made against a total
/// weight of `total_weight`.
pub fn record_app_proposal(figures: &mut AppGovConfig, total_weight: u128) -> (r: Result<
    (),
    ContractError,
>)
    ensures
        old(figures).proposal_count < u64::MAX ==> r is Ok && *final(figures) == (AppGovConfig {
            proposal_count: (old(figures).proposal_count + 1) as u64,
            current_supply: total_weight,
            ..*old(figures)
        }),
        old(figures).proposal_count == u64::MAX ==> r == Err::<(), ContractError>(
            ContractError::Overflow {  },
        ) && *final(figures) == *old(figures),
{
    if figures.proposal_count == u64::MAX {
        return Err(ContractError::Overflow {  });
    }
    figures.proposal_count = figures.proposal_count + 1;
    figures.current_supply = total_weight;
    Ok(())
}

/// The id after the last one issued.
pub fn next_id(count: &mut u64) -> (r: Result<u64, ContractError>)
    ensures
        *old(count) < u64::MAX ==> r == Ok::<u64, ContractError>((*old(count) + 1) as u64)
            && *final(count) == *old(count) + 1,
        *old(count) == u64::MAX ==> r == Err::<u64, ContractError>(ContractError::Overflow {  })
            && *final(count) == *old(count),
{
    if *count == u64::MAX {
        return Err(ContractError::Overflow {  });
    }
    *count = *count + 1;
    Ok(*count)
}

} // verus!
