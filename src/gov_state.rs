//! Proposals, ballots and tallies, and how a proposal's status follows from
//! its votes and the block it is read at.

use vstd::prelude::*;
use crate::bindings::ComdexMessages;
use crate::decimal::{
    ceil_ratio, floor_ratio, fraction_of, lemma_ceil_ratio_reaches, votes_needed, Decimal,
    DECIMAL_FRACTIONAL,
};
use crate::types::{BlockInfo, Coin, Timestamp};
use vstd::arithmetic::div_mod::lemma_div_is_ordered;

verus! {

/// A voter's choice.
#[derive(Clone, Copy, Debug, PartialEq, Eq, Structural)]
pub enum Vote {
    Yes,
    No,
    Abstain,
    Veto,
}

/// Where a proposal stands.
#[derive(Clone, Copy, Debug, PartialEq, Eq, Structural)]
pub enum Status {
    Pending,
    Open,
    Rejected,
    Passed,
    Executed,
}

/// The point after which a proposal no longer takes votes.
#[derive(Clone, Copy, Debug, PartialEq, Eq, Structural)]
pub enum Expiration {
    AtHeight(u64),
    AtTime(Timestamp),
    Never,
}

/// How two expirations compare; `None` where one counts blocks and the
/// other time.
pub open spec fn expiration_order(a: Expiration, b: Expiration) -> Option<std::cmp::Ordering> {
    match (a, b) {
        (Expiration::AtHeight(h1), Expiration::AtHeight(h2)) => Some(
            if h1 < h2 {
                std::cmp::Ordering::Less
            } else if h1 == h2 {
                std::cmp::Ordering::Equal
            } else {
                std::cmp::Ordering::Greater
            },
        ),
        (Expiration::AtTime(t1), Expiration::AtTime(t2)) => Some(
            if t1.nanos < t2.nanos {
                std::cmp::Ordering::Less
            } else if t1.nanos == t2.nanos {
                std::cmp::Ordering::Equal
            } else {
                std::cmp::Ordering::Greater
            },
        ),
        (Expiration::Never, Expiration::Never) => Some(std::cmp::Ordering::Equal),
        (Expiration::Never, _) => Some(std::cmp::Ordering::Greater),
        (_, Expiration::Never) => Some(std::cmp::Ordering::Less),
        _ => None,
    }
}

impl Expiration {
    pub open spec fn expired_at(&self, block: BlockInfo) -> bool {
        match self {
            Expiration::AtHeight(h) => block.height >= *h,
            Expiration::AtTime(t) => block.time.nanos >= t.nanos,
            Expiration::Never => false,
        }
    }

    pub fn is_expired(&self, block: &BlockInfo) -> (r: bool)
        ensures
            r == self.expired_at(*block),
    {
        match self {
            Expiration::AtHeight(h) => block.height >= *h,
            Expiration::AtTime(t) => block.time.nanos >= t.nanos,
            Expiration::Never => false,
        }
    }

    pub fn compare(&self, other: &Expiration) -> (r: Option<std::cmp::Ordering>)
        ensures
            r == expiration_order(*self, *other),
    {
        match (self, other) {
            (Expiration::AtHeight(h1), Expiration::AtHeight(h2)) => Some(
                if *h1 < *h2 {
                    std::cmp::Ordering::Less
                } else if *h1 == *h2 {
                    std::cmp::Ordering::Equal
                } else {
                    std::cmp::Ordering::Greater
                },
            ),
            (Expiration::AtTime(t1), Expiration::AtTime(t2)) => Some(
                if t1.nanos < t2.nanos {
                    std::cmp::Ordering::Less
                } else if t1.nanos == t2.nanos {
                    std::cmp::Ordering::Equal
                } else {
                    std::cmp::Ordering::Greater
                },
            ),
            (Expiration::Never, Expiration::Never) => Some(std::cmp::Ordering::Equal),
            (Expiration::Never, _) => Some(std::cmp::Ordering::Greater),
            (_, Expiration::Never) => Some(std::cmp::Ordering::Less),
            _ => None,
        }
    }
}

/// A span of blocks or of seconds.
#[derive(Clone, Copy, Debug, PartialEq, Eq, Structural)]
pub enum Duration {
    Height(u64),
    Time(u64),
}

impl Duration {
    /// The expiration this span after `block`; `None` where it overflows.
    pub fn after(&self, block: &BlockInfo) -> (r: Option<Expiration>)
        ensures
            match *self {
                Duration::Height(h) => if block.height + h <= u64::MAX {
                    r == Some(Expiration::AtHeight((block.height + h) as u64))
                } else {
                    r is None
                },
                Duration::Time(t) => if block.time.nanos + t * 1_000_000_000 <= u64::MAX {
                    r == Some(
                        Expiration::AtTime(
                            Timestamp { nanos: (block.time.nanos + t * 1_000_000_000) as u64 },
                        ),
                    )
                } else {
                    r is None
                },
            },
    {
        match self {
            Duration::Height(h) => {
                if *h <= u64::MAX - block.height {
                    Some(Expiration::AtHeight(block.height + *h))
                } else {
                    None
                }
            },
            Duration::Time(t) => match block.time.plus_seconds(*t) {
                Some(end) => Some(Expiration::AtTime(end)),
                None => None,
            },
        }
    }
}

/// The only voting rule the engine accepts: a quorum of the total weight
/// must vote, and of those who do not abstain, `threshold` must say yes.
#[derive(Clone, Copy, Debug, PartialEq, Eq, Structural)]
pub struct ThresholdQuorum {
    pub threshold: Decimal,
    pub quorum: Decimal,
}

/// A voting rule as a configuration names it.
#[derive(Clone, Copy, Debug, PartialEq, Eq, Structural)]
pub enum Threshold {
    AbsoluteCount { weight: u128 },
    AbsolutePercentage { percentage: Decimal },
    ThresholdQuorum { threshold: Decimal, quorum: Decimal },
}

/// The weight cast for each option.
#[derive(Clone, Copy, Debug, PartialEq, Eq, Structural)]
pub struct Votes {
    pub yes: u128,
    pub no: u128,
    pub abstain: u128,
    pub veto: u128,
}

/// Weight summed over each option, as the participation queries report it.
#[derive(Clone, Copy, Debug, PartialEq, Eq, Structural)]
pub struct VoteWeight {
    pub yes: u128,
    pub no: u128,
    pub abstain: u128,
    pub veto: u128,
}

impl Votes {
    pub open spec fn total_spec(&self) -> int {
        self.yes + self.no + self.abstain + self.veto
    }

    /// The weight cast for `vote`.
    pub open spec fn bucket(&self, vote: Vote) -> u128 {
        match vote {
            Vote::Yes => self.yes,
            Vote::No => self.no,
            Vote::Abstain => self.abstain,
            Vote::Veto => self.veto,
        }
    }

    /// This tally with `weight` more for `vote`.
    pub open spec fn plus(&self, vote: Vote, weight: u128) -> Votes {
        match vote {
            Vote::Yes => Votes { yes: (self.yes + weight) as u128, ..*self },
            Vote::No => Votes { no: (self.no + weight) as u128, ..*self },
            Vote::Abstain => Votes { abstain: (self.abstain + weight) as u128, ..*self },
            Vote::Veto => Votes { veto: (self.veto + weight) as u128, ..*self },
        }
    }

    /// This tally with `weight` less for `vote`.
    pub open spec fn minus(&self, vote: Vote, weight: u128) -> Votes {
        match vote {
            Vote::Yes => Votes { yes: (self.yes - weight) as u128, ..*self },
            Vote::No => Votes { no: (self.no - weight) as u128, ..*self },
            Vote::Abstain => Votes { abstain: (self.abstain - weight) as u128, ..*self },
            Vote::Veto => Votes { veto: (self.veto - weight) as u128, ..*self },
        }
    }

    /// Sum of all votes.
    pub fn total(&self) -> (r: u128)
        requires
            self.total_spec() <= u128::MAX,
        ensures
            r == self.total_spec(),
    {
        self.yes + self.no + self.abstain + self.veto
    }

    /// A tally holding `init_weight` of yes votes and nothing else.
    pub fn yes(init_weight: u128) -> (r: Votes)
        ensures
            r == (Votes { yes: init_weight, no: 0, abstain: 0, veto: 0 }),
    {
        Votes { yes: init_weight, no: 0, abstain: 0, veto: 0 }
    }

    pub fn add_vote(&mut self, vote: Vote, weight: u128)
        requires
            old(self).bucket(vote) + weight <= u128::MAX,
        ensures
            *final(self) == old(self).plus(vote, weight),
    {
        match vote {
            Vote::Yes => self.yes = self.yes + weight,
            Vote::Abstain => self.abstain = self.abstain + weight,
            Vote::No => self.no = self.no + weight,
            Vote::Veto => self.veto = self.veto + weight,
        }
    }

    pub fn subtract_vote(&mut self, vote: Vote, weight: u128)
        requires
            old(self).bucket(vote) >= weight,
        ensures
            *final(self) == old(self).minus(vote, weight),
    {
        match vote {
            Vote::Yes => self.yes = self.yes - weight,
            Vote::Abstain => self.abstain = self.abstain - weight,
            Vote::No => self.no = self.no - weight,
            Vote::Veto => self.veto = self.veto - weight,
        }
    }
}

/// A voter's recorded choice and the weight it carried.
#[derive(Clone, Copy, Debug, PartialEq, Eq, Structural)]
pub struct Ballot {
    pub weight: u128,
    pub vote: Vote,
}

/// Per-app governance figures.
#[derive(Clone, Copy, Debug, PartialEq, Eq, Structural)]
pub struct AppGovConfig {
    pub proposal_count: u64,
    pub current_supply: u128,
    pub active_participation_supply: u128,
}

/// The share of the cast weight above which vetoes block a proposal: 33%.
pub const VETO_ATOMICS: u128 = 330_000_000_000_000_000;

/// A governance proposal carrying one parameter change.
#[derive(Clone, Debug, PartialEq, Eq)]
pub struct Proposal {
    pub title: String,
    pub start_time: Timestamp,
    pub description: String,
    pub start_height: u64,
    pub expires: Expiration,
    pub msgs: Vec<ComdexMessages>,
    pub status: Status,
    pub duration: Duration,
    /// pass requirements, fixed when the proposal was made
    pub threshold: ThresholdQuorum,
    /// the total weight when the proposal started
    pub total_weight: u128,
    pub votes: Votes,
    pub deposit: Vec<Coin>,
    pub proposer: String,
    pub token_denom: String,
    pub min_deposit: u128,
    pub current_deposit: u128,
    pub app_mapping_id: u64,
    pub is_slashed: bool,
}

impl Proposal {
    /// Fractions no greater than one, and a tally whose sum fits 128 bits.
    pub open spec fn well_formed(&self) -> bool {
        &&& self.threshold.threshold.atomics <= DECIMAL_FRACTIONAL
        &&& self.threshold.quorum.atomics <= DECIMAL_FRACTIONAL
        &&& self.votes.total_spec() <= u128::MAX
    }

    /// Well formed, and stored as Passed only with votes that pass.
    pub open spec fn consistent(&self) -> bool {
        &&& self.well_formed()
        &&& self.status == Status::Passed ==> self.passes()
    }

    /// The least total that reaches the quorum.
    pub open spec fn quorum_votes(&self) -> int {
        ceil_ratio(
            self.total_weight as int,
            self.threshold.quorum.atomics as int,
            DECIMAL_FRACTIONAL as int,
        )
    }

    pub open spec fn quorum_reached(&self) -> bool {
        self.votes.total_spec() >= self.quorum_votes()
    }

    /// Vetoes exceed 33% of the cast weight.
    pub open spec fn veto_exceeded(&self) -> bool {
        self.votes.veto > floor_ratio(
            self.votes.total_spec(),
            VETO_ATOMICS as int,
            DECIMAL_FRACTIONAL as int,
        )
    }

    /// The votes carry the proposal.
    pub open spec fn passes(&self) -> bool {
        &&& self.quorum_reached()
        &&& self.votes.total_spec() != self.votes.abstain
        &&& !self.veto_exceeded()
        &&& self.votes.yes >= ceil_ratio(
            self.votes.total_spec() - self.votes.abstain,
            self.threshold.threshold.atomics as int,
            DECIMAL_FRACTIONAL as int,
        )
    }

    /// The votes defeat the proposal: they miss the quorum, the threshold or
    /// the veto limit, or, counting every weight not yet cast as yes while
    /// the proposal is open, the noes exceed the share the threshold leaves.
    pub open spec fn fails_at(&self, block: BlockInfo) -> bool {
        let opinions = self.votes.total_spec() - self.votes.abstain;
        let against = DECIMAL_FRACTIONAL - self.threshold.threshold.atomics;
        if !self.quorum_reached() || self.votes.total_spec() == self.votes.abstain
            || self.veto_exceeded() || self.votes.yes < ceil_ratio(
            opinions,
            self.threshold.threshold.atomics as int,
            DECIMAL_FRACTIONAL as int,
        ) {
            true
        } else if self.expires.expired_at(block) {
            self.votes.no > ceil_ratio(opinions, against, DECIMAL_FRACTIONAL as int)
        } else {
            let possible = if self.total_weight >= self.votes.total_spec() {
                self.total_weight - self.votes.abstain
            } else {
                opinions
            };
            self.votes.no > ceil_ratio(possible, against, DECIMAL_FRACTIONAL as int)
        }
    }

    /// Cleared the quorum and was vetoed: its deposits may be burnt.
    pub open spec fn vetoed(&self) -> bool {
        self.quorum_reached() && self.veto_exceeded()
    }

    /// The status that the stored one turns into at `block`.
    pub open spec fn status_at(&self, block: BlockInfo) -> Status {
        if self.status == Status::Executed {
            Status::Executed
        } else if self.status == Status::Pending && self.expires.expired_at(block) {
            Status::Rejected
        } else if self.expires.expired_at(block) && self.passes() {
            Status::Passed
        } else if self.expires.expired_at(block) {
            Status::Rejected
        } else {
            self.status
        }
    }

    /// The status the proposal has at `block`; reading it changes nothing.
    pub fn current_status(&self, block: &BlockInfo) -> (r: Status)
        requires
            self.well_formed(),
        ensures
            r == self.status_at(*block),
    {
        let expired = self.expires.is_expired(block);
        if self.status == Status::Executed {
            Status::Executed
        } else if self.status == Status::Pending && expired {
            Status::Rejected
        } else if expired && self.is_passed(block) {
            Status::Passed
        } else if expired {
            Status::Rejected
        } else {
            self.status
        }
    }

    /// Stores the status the proposal has at `block`.
    pub fn update_status(&mut self, block: &BlockInfo)
        requires
            old(self).well_formed(),
        ensures
            *final(self) == (Proposal { status: old(self).status_at(*block), ..*old(self) }),
    {
        self.status = self.current_status(block);
    }

    /// The cast weight above which vetoes block the proposal.
    fn veto_limit(&self) -> (r: u128)
        requires
            self.well_formed(),
        ensures
            r == floor_ratio(
                self.votes.total_spec(),
                VETO_ATOMICS as int,
                DECIMAL_FRACTIONAL as int,
            ),
    {
        fraction_of(self.votes.total(), Decimal::raw(VETO_ATOMICS))
    }

    /// Whether the votes carry the proposal.
    pub fn is_passed(&self, _block: &BlockInfo) -> (r: bool)
        requires
            self.well_formed(),
        ensures
            r == self.passes(),
    {
        let total = self.votes.total();
        if total < votes_needed(self.total_weight, self.threshold.quorum) || total
            == self.votes.abstain || self.votes.veto > self.veto_limit() {
            false
        } else {
            let opinions = total - self.votes.abstain;
            self.votes.yes >= votes_needed(opinions, self.threshold.threshold)
        }
    }

    /// Whether the votes defeat the proposal.
    pub fn is_rejected(&self, block: &BlockInfo) -> (r: bool)
        requires
            self.well_formed(),
        ensures
            r == self.fails_at(*block),
    {
        let total = self.votes.total();
        let opinions = total - self.votes.abstain;
        let against = self.threshold.threshold.complement();
        if total < votes_needed(self.total_weight, self.threshold.quorum) || total
            == self.votes.abstain || self.votes.veto > self.veto_limit() || self.votes.yes
            < votes_needed(opinions, self.threshold.threshold) {
            true
        } else if self.expires.is_expired(block) {
            self.votes.no > votes_needed(opinions, against)
        } else {
            let possible = if self.total_weight >= total {
                self.total_weight - self.votes.abstain
            } else {
                opinions
            };
            self.votes.no > votes_needed(possible, against)
        }
    }

    /// Whether the proposal cleared the quorum and was vetoed.
    pub fn check_vetoed(&self, _block: &BlockInfo) -> (r: bool)
        requires
            self.well_formed(),
        ensures
            r == self.vetoed(),
    {
        let total = self.votes.total();
        total >= votes_needed(self.total_weight, self.threshold.quorum) && self.votes.veto
            > self.veto_limit()
    }
}

/// Changing a ballot moves the voter's weight from one option to another:
/// taking `weight` off the old choice and adding it to the new one leaves
/// the sum of all votes as it was.
pub proof fn lemma_changed_vote_keeps_total(votes: Votes, old_vote: Vote, new_vote: Vote, weight: u128)
    requires
        votes.bucket(old_vote) >= weight,
        votes.minus(old_vote, weight).bucket(new_vote) + weight <= u128::MAX,
    ensures
        votes.minus(old_vote, weight).plus(new_vote, weight).total_spec() == votes.total_spec(),
        votes.minus(old_vote, weight).bucket(old_vote) == votes.bucket(old_vote) - weight
            || old_vote == new_vote,
        votes.minus(old_vote, weight).plus(new_vote, weight).bucket(new_vote) == votes.bucket(
            new_vote,
        ) + weight || old_vote == new_vote,
{
}

/// A tally is never both passing and failing: votes that carry a proposal
/// do not defeat it, at any block.
pub proof fn lemma_passing_is_not_failing(p: Proposal, block: BlockInfo)
    requires
        p.well_formed(),
    ensures
        p.passes() ==> !p.fails_at(block),
{
    if p.passes() {
        let opinions = p.votes.total_spec() - p.votes.abstain;
        let t = p.threshold.threshold.atomics as int;
        let d = DECIMAL_FRACTIONAL as int;
        let against = d - t;
        let possible = if p.total_weight >= p.votes.total_spec() {
            p.total_weight - p.votes.abstain
        } else {
            opinions
        };
        lemma_no_bounded_by_complement(p.votes.yes as int, p.votes.no as int, opinions, t, d);
        if !p.expires.expired_at(block) {
            lemma_ceil_ratio_monotone(opinions, possible, against, d);
        }
    }
}

/// Where the yes votes reach `ceil(opinions * t)`, the noes are within
/// `ceil(opinions * (1 - t))`.
proof fn lemma_no_bounded_by_complement(yes: int, no: int, opinions: int, t: int, d: int)
    requires
        0 <= t <= d,
        d > 0,
        yes >= 0,
        no >= 0,
        yes + no <= opinions,
        yes >= ceil_ratio(opinions, t, d),
    ensures
        no <= ceil_ratio(opinions, d - t, d),
{
    lemma_ceil_ratio_reaches(opinions, t, d);
    lemma_ceil_ratio_reaches(opinions, d - t, d);
    let c1 = ceil_ratio(opinions, t, d);
    let c2 = ceil_ratio(opinions, d - t, d);
    assert(opinions * (d - t) == opinions * d - opinions * t) by (nonlinear_arith);
    // c1 * d >= opinions * t, so (opinions - c1) * d <= opinions * (d - t) <= c2 * d
    assert((opinions - c1) * d <= c2 * d) by (nonlinear_arith)
        requires
            c1 * d >= opinions * t,
            c2 * d >= opinions * (d - t),
            opinions * (d - t) == opinions * d - opinions * t,
    ;
    assert(opinions - c1 <= c2) by (nonlinear_arith)
        requires
            (opinions - c1) * d <= c2 * d,
            d > 0,
    ;
}

/// Rounded-up shares grow with the whole.
proof fn lemma_ceil_ratio_monotone(a: int, b: int, q: int, d: int)
    requires
        0 <= a <= b,
        q >= 0,
        d > 0,
    ensures
        ceil_ratio(a, q, d) <= ceil_ratio(b, q, d),
{
    assert(a * q <= b * q) by (nonlinear_arith)
        requires
            a <= b,
            q >= 0,
    ;
    lemma_div_is_ordered(a * q + d - 1, b * q + d - 1, d);
}

/// A proposal short of its quorum is never seen as Passed: wherever the
/// status read at any block is Passed, the cast weight is at least
/// `quorum * total_weight`.
pub proof fn lemma_passed_needs_quorum(p: Proposal, block: BlockInfo)
    requires
        p.consistent(),
    ensures
        p.status_at(block) == Status::Passed ==> p.votes.total_spec() * (
        DECIMAL_FRACTIONAL as int) >= p.total_weight * p.threshold.quorum.atomics,
{
    if p.status_at(block) == Status::Passed {
        assert(p.passes());
        lemma_ceil_ratio_reaches(
            p.total_weight as int,
            p.threshold.quorum.atomics as int,
            DECIMAL_FRACTIONAL as int,
        );
        assert(p.votes.total_spec() * (DECIMAL_FRACTIONAL as int) >= p.quorum_votes() * (
        DECIMAL_FRACTIONAL as int)) by (nonlinear_arith)
            requires
                p.votes.total_spec() >= p.quorum_votes(),
        ;
    }
}

} // verus!
