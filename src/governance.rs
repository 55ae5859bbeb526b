//! The governance engine: proposals backed by deposits, weighted votes,
//! execution of passed proposals, and refund or slashing of deposits.
//!
//! Each operation takes what the host loaded for it (the proposal, the
//! caller's ballot or deposit, and the answers of the platform and of the
//! locking engine) and checks every precondition before it changes anything.

use vstd::prelude::*;
use crate::bindings::{same_action, ComdexMessages, GetAppResponse, MessageValidateResponse};
use crate::decimal::{Decimal, DECIMAL_FRACTIONAL};
use crate::gov_state::{
    expiration_order, Ballot, Duration, Expiration, Proposal, Status, Threshold, ThresholdQuorum,
    Vote, Votes,
};
use crate::locker::{add_balance, balance_of};
use crate::types::{
    attribute, duplicate_coins, Attribute, BankMsg, BlockInfo, Coin, CosmosMsg, Response,
};

verus! {

/// Why an operation of the governance engine failed.
#[derive(Clone, Debug, PartialEq, Eq)]
pub enum ContractError {
    ProposalNotEligible {},
    ZeroWeight {},
    AdditionalDenomDeposit {},
    UnreachableWeight {},
    NoVoters {},
    ExtraMessages {},
    RefundedAlready {},
    NoMessage {},
    IncorrectDeposit {},
    NonPassedProposalRefund {},
    NoDeposit {},
    InsufficientFundsSend {},
    Unauthorized {},
    NotOpen {},
    Expired {},
    NotExpiredYet {},
    NotExpired {},
    NoGovToken {},
    DenomNotFound {},
    AbsoluteCountNotAccepted {},
    AbsolutePercentageNotAccepted {},
    InvalidThreshold {},
    ZeroQuorumThreshold {},
    UnreachableQuorumThreshold {},
    WrongExpiration {},
    AlreadyVoted {},
    WrongExecuteStatus {},
    WrongRefundStatus {},
    IncorrectDenomDeposit {},
    CannotDeposit {},
    ZeroSupply {},
    ProposalError { err: String },
    DifferentAppID {},
    SlashedProposal {},
    ProposalNotVetoed {},
    NotRejected {},
    AlreadySlashed {},
    PendingProposal {},
    OpenProposal {},
    FundsNotAllowed {},
    SingleDenomDeposit {},
    InvalidAddress {},
    Overflow {},
}

/// The engine's settings: the voting rule and the locking engine it reads
/// voting power from.
#[derive(Clone, Debug, PartialEq, Eq)]
pub struct Config {
    pub threshold: Threshold,
    pub locking_contract: String,
}

#[derive(Clone, Debug, PartialEq, Eq)]
pub struct InstantiateMsg {
    pub threshold: Threshold,
    pub locking_contract: String,
}

/// A proposal as its author submits it.
#[derive(Clone, Debug, PartialEq, Eq)]
pub struct Propose {
    pub title: String,
    pub description: String,
    pub msgs: Vec<ComdexMessages>,
    pub latest: Option<Expiration>,
    pub app_id_param: u64,
}

/// A member and the weight it votes with.
#[derive(Clone, Debug, PartialEq, Eq)]
pub struct Voter {
    pub addr: String,
    pub weight: u64,
}

#[derive(Clone, Copy, Debug, PartialEq, Eq, Structural)]
pub struct MigrateMsg {}

/// The operations of the governance engine.
#[derive(Clone, Debug, PartialEq, Eq)]
pub enum ExecuteMsg {
    Propose { propose: Propose },
    Vote { proposal_id: u64, vote: Vote },
    Execute { proposal_id: u64 },
    Refund { proposal_id: u64 },
    Deposit { proposal_id: u64 },
    Slash { proposal_id: u64 },
}

/// The queries of the governance engine.
#[derive(Clone, Debug, PartialEq, Eq)]
pub enum QueryMsg {
    Threshold { proposal_id: u64 },
    Proposal { proposal_id: u64 },
    ListProposals { start_after: Option<u64>, limit: Option<u32> },
    ReverseProposals { start_before: Option<u64>, limit: Option<u32> },
    Vote { proposal_id: u64, voter: String },
    ListVotes { proposal_id: u64, start_after: Option<String>, limit: Option<u32> },
    ListAppProposal { app_id: u64, start_after: u32, limit: Option<u32>, status: Option<Status> },
    AppAllUpData { app_id: u64 },
}

/// Reconfigurations only the host may make.
#[derive(Clone, Debug, PartialEq, Eq)]
pub enum SudoMsg {
    UpdateLockingContract { address: String },
    UpdateThreshold { threshold: Threshold },
}

/// Why a pair of fractions is no acceptable voting rule, if it is not.
pub open spec fn threshold_failure(threshold: Decimal, quorum: Decimal) -> Option<ContractError> {
    if threshold.atomics > DECIMAL_FRACTIONAL || threshold.atomics < DECIMAL_FRACTIONAL / 2 {
        Some(ContractError::InvalidThreshold {  })
    } else if quorum.atomics == 0 {
        Some(ContractError::ZeroQuorumThreshold {  })
    } else if quorum.atomics > DECIMAL_FRACTIONAL {
        Some(ContractError::UnreachableQuorumThreshold {  })
    } else {
        None
    }
}

/// Why a voting rule cannot be configured, if it cannot.
pub open spec fn rule_failure(threshold: Threshold) -> Option<ContractError> {
    match threshold {
        Threshold::AbsoluteCount { .. } => Some(ContractError::AbsoluteCountNotAccepted {  }),
        Threshold::AbsolutePercentage { .. } => Some(
            ContractError::AbsolutePercentageNotAccepted {  },
        ),
        Threshold::ThresholdQuorum { threshold, quorum } => threshold_failure(threshold, quorum),
    }
}

/// A configuration the engine can run with.
pub open spec fn config_valid(config: Config) -> bool {
    rule_failure(config.threshold) is None
}

/// The rule of a valid configuration.
pub open spec fn rule_of(config: Config) -> ThresholdQuorum {
    match config.threshold {
        Threshold::ThresholdQuorum { threshold, quorum } => ThresholdQuorum { threshold, quorum },
        _ => ThresholdQuorum { threshold: Decimal { atomics: 0 }, quorum: Decimal { atomics: 0 } },
    }
}

/// Accepts a threshold in `[50%, 100%]` and a quorum in `(0%, 100%]`.
pub fn validate_threshold(threshold: &Decimal, quorum: &Decimal) -> (r: Result<(), ContractError>)
    ensures
        match threshold_failure(*threshold, *quorum) {
            Some(e) => r == Err::<(), ContractError>(e),
            None => r is Ok,
        },
{
    if threshold.atomics > Decimal::percent(100).atomics || threshold.atomics < Decimal::percent(
        50,
    ).atomics {
        Err(ContractError::InvalidThreshold {  })
    } else if quorum.is_zero() {
        Err(ContractError::ZeroQuorumThreshold {  })
    } else if quorum.atomics > Decimal::one().atomics {
        Err(ContractError::UnreachableQuorumThreshold {  })
    } else {
        Ok(())
    }
}

fn validate_rule(threshold: &Threshold) -> (r: Result<(), ContractError>)
    ensures
        match rule_failure(*threshold) {
            Some(e) => r == Err::<(), ContractError>(e),
            None => r is Ok,
        },
{
    match threshold {
        Threshold::AbsoluteCount { .. } => Err(ContractError::AbsoluteCountNotAccepted {  }),
        Threshold::AbsolutePercentage { .. } => Err(
            ContractError::AbsolutePercentageNotAccepted {  },
        ),
        Threshold::ThresholdQuorum { threshold, quorum } => validate_threshold(threshold, quorum),
    }
}

/// Sets the engine up: no funds may come with the call, the rule must be a
/// valid threshold-and-quorum one, and the locking engine must be named.
pub fn instantiate(msg: InstantiateMsg, funds: &Vec<Coin>) -> (r: Result<Config, ContractError>)
    ensures
        funds@.len() > 0 ==> r == Err::<Config, ContractError>(ContractError::FundsNotAllowed {  }),
        funds@.len() == 0 && rule_failure(msg.threshold) is Some ==> r == Err::<
            Config,
            ContractError,
        >(rule_failure(msg.threshold)->Some_0),
        funds@.len() == 0 && rule_failure(msg.threshold) is None && msg.locking_contract@.len()
            == 0 ==> r == Err::<Config, ContractError>(ContractError::InvalidAddress {  }),
        funds@.len() == 0 && rule_failure(msg.threshold) is None && msg.locking_contract@.len()
            > 0 ==> r == Ok::<Config, ContractError>(
            Config { threshold: msg.threshold, locking_contract: msg.locking_contract },
        ),
{
    if funds.len() > 0 {
        return Err(ContractError::FundsNotAllowed {  });
    }
    match validate_rule(&msg.threshold) {
        Err(e) => {
            return Err(e);
        },
        Ok(()) => {},
    }
    if msg.locking_contract.as_str().unicode_len() == 0 {
        return Err(ContractError::InvalidAddress {  });
    }
    Ok(Config { threshold: msg.threshold, locking_contract: msg.locking_contract })
}

/// Points the engine at another locking engine.
pub fn update_locking_contract(config: &mut Config, address: String) -> (r: Result<
    (),
    ContractError,
>)
    ensures
        address@.len() == 0 ==> r == Err::<(), ContractError>(ContractError::InvalidAddress {  })
            && *final(config) == *old(config),
        address@.len() > 0 ==> r is Ok && *final(config) == (Config {
            locking_contract: address,
            ..*old(config)
        }),
{
    if address.as_str().unicode_len() == 0 {
        return Err(ContractError::InvalidAddress {  });
    }
    config.locking_contract = address;
    Ok(())
}

/// Replaces the voting rule, which must be valid.
pub fn update_threshold(config: &mut Config, threshold: Threshold) -> (r: Result<(), ContractError>)
    ensures
        match rule_failure(threshold) {
            Some(e) => r == Err::<(), ContractError>(e) && *final(config) == *old(config),
            None => r is Ok && *final(config) == (Config { threshold, ..*old(config) }),
        },
{
    match validate_rule(&threshold) {
        Err(e) => Err(e),
        Ok(()) => {
            config.threshold = threshold;
            Ok(())
        },
    }
}

/// The rule of a valid configuration.
pub fn threshold_quorum(config: &Config) -> (r: ThresholdQuorum)
    requires
        config_valid(*config),
    ensures
        r == rule_of(*config),
        r.threshold.atomics <= DECIMAL_FRACTIONAL,
        r.quorum.atomics <= DECIMAL_FRACTIONAL,
{
    match config.threshold {
        Threshold::ThresholdQuorum { threshold, quorum } => ThresholdQuorum { threshold, quorum },
        _ => ThresholdQuorum { threshold: Decimal::zero(), quorum: Decimal::zero() },
    }
}

/// The latest expiration the app allows for a proposal made at `block`;
/// `None` where it lies beyond the clock's range.
pub open spec fn max_expiry(app: GetAppResponse, block: BlockInfo) -> Option<Expiration> {
    if block.time.nanos + app.gov_time_in_seconds * 1_000_000_000 <= u64::MAX {
        Some(
            Expiration::AtTime(
                crate::types::Timestamp {
                    nanos: (block.time.nanos + app.gov_time_in_seconds * 1_000_000_000) as u64,
                },
            ),
        )
    } else {
        None
    }
}

/// The earlier of the author's expiration and the app's latest; `None`
/// where the two cannot be compared.
pub open spec fn proposal_expiry(latest: Option<Expiration>, max: Expiration) -> Option<Expiration> {
    let wanted = match latest {
        Some(e) => e,
        None => max,
    };
    match expiration_order(wanted, max) {
        Some(std::cmp::Ordering::Greater) => Some(max),
        Some(_) => Some(wanted),
        None => None,
    }
}

/// Why a proposal cannot be made, if it cannot.
pub open spec fn propose_failure(
    block: BlockInfo,
    funds: Seq<Coin>,
    propose: Propose,
    app: GetAppResponse,
    gov_token_denom: Seq<char>,
    total_weight: u128,
    validation: MessageValidateResponse,
) -> Option<ContractError> {
    let msgs = propose.msgs@;
    if msgs.len() == 0 {
        Some(ContractError::NoMessage {  })
    } else if msgs.len() > 1 {
        Some(ContractError::ExtraMessages {  })
    } else if gov_token_denom.len() == 0 || app.gov_token_id == 0 {
        Some(ContractError::NoGovToken {  })
    } else if total_weight == 0 {
        Some(ContractError::ZeroSupply {  })
    } else if max_expiry(app, block) is None {
        Some(ContractError::Overflow {  })
    } else if proposal_expiry(propose.latest, max_expiry(app, block)->Some_0) is None {
        Some(ContractError::WrongExpiration {  })
    } else if funds.len() > 1 {
        Some(ContractError::AdditionalDenomDeposit {  })
    } else if funds.len() == 0 {
        Some(ContractError::InsufficientFundsSend {  })
    } else if funds[0].denom@ != gov_token_denom {
        Some(ContractError::DenomNotFound {  })
    } else if !msgs[0].proposable_spec() {
        Some(ContractError::ProposalNotEligible {  })
    } else if msgs[0].app_id_spec() != propose.app_id_param {
        Some(ContractError::DifferentAppID {  })
    } else if !validation.found {
        Some(ContractError::ProposalError { err: validation.err })
    } else {
        None
    }
}

/// The status a new proposal starts from: Open where its deposit reaches
/// the app's minimum, else Pending.
pub open spec fn opening_status(deposit: u128, min_deposit: u64) -> Status {
    if deposit >= min_deposit {
        Status::Open
    } else {
        Status::Pending
    }
}

/// The checks of a proposal that need nothing from the platform: it carries
/// exactly one action.
pub fn check_actions(propose: &Propose) -> (r: Result<(), ContractError>)
    ensures
        propose.msgs@.len() == 0 ==> r == Err::<(), ContractError>(ContractError::NoMessage {  }),
        propose.msgs@.len() > 1 ==> r == Err::<(), ContractError>(
            ContractError::ExtraMessages {  },
        ),
        propose.msgs@.len() == 1 ==> r is Ok,
{
    if propose.msgs.len() == 0 {
        Err(ContractError::NoMessage {  })
    } else if propose.msgs.len() > 1 {
        Err(ContractError::ExtraMessages {  })
    } else {
        Ok(())
    }
}

/// Makes a proposal carrying exactly one action.
///
/// The host hands over what it read for the call: the app's governance
/// settings, the denomination of its governance token, the token's supply
/// (the total weight), the author's voting power, and the platform's verdict
/// on the action. The author's weight becomes the first yes vote; the host
/// stores the proposal under a fresh id, with the author's ballot and
/// deposit.
pub fn execute_propose(
    config: &Config,
    block: &BlockInfo,
    sender: &String,
    funds: &Vec<Coin>,
    propose: Propose,
    app: &GetAppResponse,
    gov_token_denom: &String,
    total_weight: u128,
    voting_power: u128,
    validation: &MessageValidateResponse,
) -> (r: Result<Proposal, ContractError>)
    requires
        config_valid(*config),
    ensures
        r is Err <==> propose_failure(
            *block,
            funds@,
            propose,
            *app,
            gov_token_denom@,
            total_weight,
            *validation,
        ) is Some,
        r is Err ==> r->Err_0 == propose_failure(
            *block,
            funds@,
            propose,
            *app,
            gov_token_denom@,
            total_weight,
            *validation,
        )->Some_0,
        r is Ok ==> {
            let p = r->Ok_0;
            &&& p.title == propose.title
            &&& p.description == propose.description
            &&& p.start_time == block.time
            &&& p.start_height == block.height
            &&& p.expires == proposal_expiry(propose.latest, max_expiry(*app, *block)->Some_0)->Some_0
            &&& p.msgs@ == propose.msgs@
            &&& p.duration == Duration::Time(app.gov_time_in_seconds)
            &&& p.status == (Proposal {
                status: opening_status(funds@[0].amount, app.min_gov_deposit),
                ..p
            }).status_at(*block)
            &&& p.threshold == rule_of(*config)
            &&& p.total_weight == total_weight
            &&& p.votes == (Votes { yes: voting_power, no: 0, abstain: 0, veto: 0 })
            &&& p.deposit@ == funds@
            &&& p.proposer == *sender
            &&& p.token_denom == *gov_token_denom
            &&& p.min_deposit == app.min_gov_deposit
            &&& p.current_deposit == funds@[0].amount
            &&& p.app_mapping_id == propose.app_id_param
            &&& !p.is_slashed
            &&& p.consistent()
        },
{
    match check_actions(&propose) {
        Err(e) => {
            return Err(e);
        },
        Ok(()) => {},
    }
    if gov_token_denom.as_str().unicode_len() == 0 || app.gov_token_id == 0 {
        return Err(ContractError::NoGovToken {  });
    }
    if total_weight == 0 {
        return Err(ContractError::ZeroSupply {  });
    }
    let max_voting_period = Duration::Time(app.gov_time_in_seconds);
    let max_expires = match max_voting_period.after(block) {
        Some(e) => e,
        None => {
            return Err(ContractError::Overflow {  });
        },
    };
    let wanted = match propose.latest {
        Some(e) => e,
        None => max_expires,
    };
    let expires = match wanted.compare(&max_expires) {
        Some(std::cmp::Ordering::Greater) => max_expires,
        Some(_) => wanted,
        None => {
            return Err(ContractError::WrongExpiration {  });
        },
    };
    if funds.len() > 1 {
        return Err(ContractError::AdditionalDenomDeposit {  });
    } else if funds.len() == 0 {
        return Err(ContractError::InsufficientFundsSend {  });
    } else if funds[0].denom != *gov_token_denom {
        return Err(ContractError::DenomNotFound {  });
    }
    if !propose.msgs[0].proposable() {
        return Err(ContractError::ProposalNotEligible {  });
    }
    if propose.msgs[0].app_id() != propose.app_id_param {
        return Err(ContractError::DifferentAppID {  });
    }
    if !validation.found {
        return Err(ContractError::ProposalError { err: validation.err.clone() });
    }
    let deposit = funds[0].amount;
    let status = if deposit >= app.min_gov_deposit as u128 {
        Status::Open
    } else {
        Status::Pending
    };
    let mut prop = Proposal {
        title: propose.title,
        start_time: block.time,
        description: propose.description,
        start_height: block.height,
        expires,
        msgs: propose.msgs,
        status,
        duration: max_voting_period,
        threshold: threshold_quorum(config),
        total_weight,
        votes: Votes::yes(voting_power),
        deposit: duplicate_coins(funds),
        proposer: sender.clone(),
        token_denom: gov_token_denom.clone(),
        min_deposit: app.min_gov_deposit as u128,
        current_deposit: deposit,
        app_mapping_id: propose.app_id_param,
        is_slashed: false,
    };
    prop.update_status(block);
    Ok(prop)
}

/// Why a vote cannot be cast, if it cannot.
pub open spec fn vote_failure(
    prop: Proposal,
    block: BlockInfo,
    funds: Seq<Coin>,
    previous: Option<Ballot>,
    weight: u128,
    vote: Vote,
) -> Option<ContractError> {
    let cleared = match previous {
        Some(b) => prop.votes.minus(b.vote, b.weight),
        None => prop.votes,
    };
    if funds.len() > 0 {
        Some(ContractError::FundsNotAllowed {  })
    } else if prop.status_at(block) != Status::Open {
        Some(ContractError::NotOpen {  })
    } else if previous is Some && prop.votes.bucket(previous->Some_0.vote)
        < previous->Some_0.weight {
        Some(ContractError::Overflow {  })
    } else if cleared.total_spec() + weight > u128::MAX {
        Some(ContractError::Overflow {  })
    } else {
        None
    }
}

/// Casts the caller's vote with the weight it held when the proposal was
/// made; a previous ballot of the caller is taken off the tally first.
/// Returns the ballot to store.
pub fn execute_vote(
    prop: &mut Proposal,
    block: &BlockInfo,
    funds: &Vec<Coin>,
    previous: Option<Ballot>,
    voting_power: u128,
    vote: Vote,
) -> (r: Result<Ballot, ContractError>)
    requires
        old(prop).well_formed(),
    ensures
        r is Err <==> vote_failure(*old(prop), *block, funds@, previous, voting_power, vote) is Some,
        r is Err ==> r->Err_0 == vote_failure(
            *old(prop),
            *block,
            funds@,
            previous,
            voting_power,
            vote,
        )->Some_0 && *final(prop) == *old(prop),
        r is Ok ==> {
            let cleared = match previous {
                Some(b) => old(prop).votes.minus(b.vote, b.weight),
                None => old(prop).votes,
            };
            let tallied = Proposal { votes: cleared.plus(vote, voting_power), ..*old(prop) };
            &&& r->Ok_0 == (Ballot { weight: voting_power, vote })
            &&& *final(prop) == (Proposal { status: tallied.status_at(*block), ..tallied })
            &&& final(prop).well_formed()
        },
        old(prop).consistent() ==> final(prop).consistent(),
{
    if funds.len() > 0 {
        return Err(ContractError::FundsNotAllowed {  });
    }
    if prop.current_status(block) != Status::Open {
        return Err(ContractError::NotOpen {  });
    }
    let ghost start = prop.votes;
    let mut votes = prop.votes;
    match previous {
        Some(b) => {
            let held = match b.vote {
                Vote::Yes => votes.yes,
                Vote::No => votes.no,
                Vote::Abstain => votes.abstain,
                Vote::Veto => votes.veto,
            };
            if held < b.weight {
                return Err(ContractError::Overflow {  });
            }
            votes.subtract_vote(b.vote, b.weight);
        },
        None => {},
    }
    if votes.total() > u128::MAX - voting_power {
        return Err(ContractError::Overflow {  });
    }
    votes.add_vote(vote, voting_power);
    prop.votes = votes;
    prop.update_status(block);
    Ok(Ballot { weight: voting_power, vote })
}

/// Changing a ballot on an open proposal, with the weight it was cast with,
/// always succeeds when no funds come with it, and leaves the sum of all
/// votes as it was.
pub proof fn lemma_revote_keeps_total(prop: Proposal, block: BlockInfo, previous: Ballot, vote: Vote)
    requires
        prop.well_formed(),
        prop.status_at(block) == Status::Open,
        prop.votes.bucket(previous.vote) >= previous.weight,
    ensures
        vote_failure(prop, block, Seq::empty(), Some(previous), previous.weight, vote) is None,
        prop.votes.minus(previous.vote, previous.weight).plus(vote, previous.weight).total_spec()
            == prop.votes.total_spec(),
{
    let cleared = prop.votes.minus(previous.vote, previous.weight);
    assert(cleared.total_spec() == prop.votes.total_spec() - previous.weight);
    assert(cleared.bucket(vote) <= cleared.total_spec());
    crate::gov_state::lemma_changed_vote_keeps_total(
        prop.votes,
        previous.vote,
        vote,
        previous.weight,
    );
}

/// Why a proposal cannot be executed, if it cannot.
pub open spec fn execute_failure(prop: Proposal, block: BlockInfo, funds: Seq<Coin>) -> Option<
    ContractError,
> {
    if funds.len() > 0 {
        Some(ContractError::FundsNotAllowed {  })
    } else if prop.status_at(block) != Status::Passed {
        Some(ContractError::WrongExecuteStatus {  })
    } else {
        None
    }
}

/// Marks a passed proposal executed and hands its action to the platform.
/// Executed is final, so an action is dispatched at most once.
pub fn execute_execute(
    prop: &mut Proposal,
    block: &BlockInfo,
    funds: &Vec<Coin>,
    sender: &String,
) -> (r: Result<Response, ContractError>)
    requires
        old(prop).well_formed(),
    ensures
        r is Err <==> execute_failure(*old(prop), *block, funds@) is Some,
        r is Err ==> r->Err_0 == execute_failure(*old(prop), *block, funds@)->Some_0 && *final(prop)
            == *old(prop),
        r is Ok ==> {
            &&& *final(prop) == (Proposal { status: Status::Executed, ..*old(prop) })
            &&& r->Ok_0.messages@.len() == old(prop).msgs@.len()
            &&& forall|i: int|
                0 <= i < old(prop).msgs@.len() ==> (#[trigger] r->Ok_0.messages@[i] is Custom
                    && same_action(r->Ok_0.messages@[i]->Custom_0, old(prop).msgs@[i]))
            &&& r->Ok_0.attributes@.len() == 2
            &&& r->Ok_0.attributes@[0].key@ == "action"@
            &&& r->Ok_0.attributes@[0].value@ == "execute"@
            &&& r->Ok_0.attributes@[1].key@ == "sender"@
            &&& r->Ok_0.attributes@[1].value == *sender
        },
        old(prop).consistent() ==> final(prop).consistent(),
{
    if funds.len() > 0 {
        return Err(ContractError::FundsNotAllowed {  });
    }
    if prop.current_status(block) != Status::Passed {
        return Err(ContractError::WrongExecuteStatus {  });
    }
    prop.status = Status::Executed;
    let mut messages: Vec<CosmosMsg> = Vec::new();
    let mut i: usize = 0;
    while i < prop.msgs.len()
        invariant
            i <= prop.msgs@.len(),
            messages@.len() == i,
            forall|k: int|
                0 <= k < i ==> (#[trigger] messages@[k] is Custom && same_action(
                    messages@[k]->Custom_0,
                    prop.msgs@[k],
                )),
        decreases prop.msgs@.len() - i,
    {
        messages.push(CosmosMsg::Custom(prop.msgs[i].duplicate()));
        i = i + 1;
    }
    let mut attributes: Vec<Attribute> = Vec::new();
    attributes.push(attribute("action", String::from_str("execute")));
    attributes.push(attribute("sender", sender.clone()));
    Ok(Response { messages, attributes })
}

/// Why a deposit cannot be made, if it cannot.
pub open spec fn deposit_failure(
    prop: Proposal,
    block: BlockInfo,
    deposits: Seq<Coin>,
    funds: Seq<Coin>,
) -> Option<ContractError> {
    let status = prop.status_at(block);
    if funds.len() != 1 {
        Some(ContractError::SingleDenomDeposit {  })
    } else if prop.token_denom@ != funds[0].denom@ {
        Some(ContractError::IncorrectDenomDeposit {  })
    } else if status == Status::Executed || status == Status::Rejected || status
        == Status::Passed {
        Some(ContractError::CannotDeposit {  })
    } else if prop.current_deposit + funds[0].amount > u128::MAX || balance_of(
        deposits,
        funds[0].denom@,
    ) + funds[0].amount > u128::MAX {
        Some(ContractError::Overflow {  })
    } else {
        None
    }
}

/// Adds the caller's coins of the governance token to a pending or open
/// proposal's deposit; once the pool exceeds the minimum, the proposal is
/// open for votes.
pub fn execute_deposit(
    prop: &mut Proposal,
    block: &BlockInfo,
    deposits: &mut Vec<Coin>,
    funds: &Vec<Coin>,
    sender: &String,
) -> (r: Result<Response, ContractError>)
    requires
        old(prop).well_formed(),
    ensures
        r is Err <==> deposit_failure(*old(prop), *block, old(deposits)@, funds@) is Some,
        r is Err ==> r->Err_0 == deposit_failure(
            *old(prop),
            *block,
            old(deposits)@,
            funds@,
        )->Some_0 && *final(prop) == *old(prop) && *final(deposits) == *old(deposits),
        r is Ok ==> {
            let amount = funds@[0].amount;
            let pool = old(prop).current_deposit + amount;
            &&& final(prop).current_deposit == pool
            &&& final(prop).deposit@ == old(prop).deposit@.push(funds@[0])
            &&& final(prop).status == if pool > old(prop).min_deposit {
                Status::Open
            } else {
                old(prop).status
            }
            &&& *final(prop) == (Proposal {
                current_deposit: final(prop).current_deposit,
                deposit: final(prop).deposit,
                status: final(prop).status,
                ..*old(prop)
            })
            &&& balance_of(final(deposits)@, funds@[0].denom@) == balance_of(
                old(deposits)@,
                funds@[0].denom@,
            ) + amount
            &&& forall|d: Seq<char>|
                d != funds@[0].denom@ ==> balance_of(final(deposits)@, d) == #[trigger] balance_of(
                    old(deposits)@,
                    d,
                )
            &&& r->Ok_0.messages@.len() == 0
            &&& r->Ok_0.attributes@.len() == 2
            &&& r->Ok_0.attributes@[0].key@ == "action"@
            &&& r->Ok_0.attributes@[0].value@ == "deposit"@
            &&& r->Ok_0.attributes@[1].key@ == "depositor"@
            &&& r->Ok_0.attributes@[1].value == *sender
        },
        old(prop).consistent() ==> final(prop).consistent(),
{
    if funds.len() != 1 {
        return Err(ContractError::SingleDenomDeposit {  });
    }
    let status = prop.current_status(block);
    if prop.token_denom != funds[0].denom {
        return Err(ContractError::IncorrectDenomDeposit {  });
    }
    if status == Status::Executed || status == Status::Rejected || status == Status::Passed {
        return Err(ContractError::CannotDeposit {  });
    }
    let amount = funds[0].amount;
    if prop.current_deposit > u128::MAX - amount {
        return Err(ContractError::Overflow {  });
    }
    if crate::locker::balance_amount(deposits, &funds[0].denom) > u128::MAX - amount {
        return Err(ContractError::Overflow {  });
    }
    add_balance(deposits, &funds[0].denom, amount);
    prop.deposit.push(funds[0].duplicate());
    prop.current_deposit = prop.current_deposit + amount;
    if prop.current_deposit > prop.min_deposit {
        prop.status = Status::Open;
    }
    let mut attributes: Vec<Attribute> = Vec::new();
    attributes.push(attribute("action", String::from_str("deposit")));
    attributes.push(attribute("depositor", sender.clone()));
    Ok(Response { messages: Vec::new(), attributes })
}

/// Why a refund cannot be made, if it cannot.
pub open spec fn refund_failure(prop: Proposal, block: BlockInfo, funds_len: int, has_deposit: bool) -> Option<
    ContractError,
> {
    let status = prop.status_at(block);
    if funds_len > 0 {
        Some(ContractError::FundsNotAllowed {  })
    } else if status == Status::Pending {
        Some(ContractError::PendingProposal {  })
    } else if status == Status::Open {
        Some(ContractError::OpenProposal {  })
    } else if status == Status::Rejected && prop.vetoed() {
        Some(ContractError::SlashedProposal {  })
    } else if !has_deposit {
        Some(ContractError::NoDeposit {  })
    } else {
        None
    }
}

/// Returns the caller's deposit once voting is over, unless the proposal
/// was vetoed: those deposits are forfeit. The record is removed.
pub fn execute_refund(
    prop: &Proposal,
    block: &BlockInfo,
    funds: &Vec<Coin>,
    deposit: &mut Option<Vec<Coin>>,
    sender: &String,
) -> (r: Result<Response, ContractError>)
    requires
        prop.well_formed(),
    ensures
        r is Err <==> refund_failure(*prop, *block, funds@.len() as int, (*old(deposit)) is Some)
            is Some,
        r is Err ==> r->Err_0 == refund_failure(
            *prop,
            *block,
            funds@.len() as int,
            (*old(deposit)) is Some,
        )->Some_0 && *final(deposit) == *old(deposit),
        r is Ok ==> {
            &&& (*final(deposit)) is None
            &&& r->Ok_0.messages@.len() == 1
            &&& r->Ok_0.messages@[0] == CosmosMsg::Bank(
                BankMsg::Send { to_address: *sender, amount: (*old(deposit))->Some_0 },
            )
            &&& r->Ok_0.attributes@.len() == 2
            &&& r->Ok_0.attributes@[0].key@ == "action"@
            &&& r->Ok_0.attributes@[0].value@ == "refund"@
            &&& r->Ok_0.attributes@[1].key@ == "sender"@
            &&& r->Ok_0.attributes@[1].value == *sender
        },
{
    if funds.len() > 0 {
        return Err(ContractError::FundsNotAllowed {  });
    }
    let status = prop.current_status(block);
    if status == Status::Pending {
        return Err(ContractError::PendingProposal {  });
    }
    if status == Status::Open {
        return Err(ContractError::OpenProposal {  });
    }
    if status == Status::Rejected && prop.check_vetoed(block) {
        return Err(ContractError::SlashedProposal {  });
    }
    match deposit.take() {
        None => Err(ContractError::NoDeposit {  }),
        Some(coins) => {
            let mut messages: Vec<CosmosMsg> = Vec::new();
            messages.push(
                CosmosMsg::Bank(BankMsg::Send { to_address: sender.clone(), amount: coins }),
            );
            let mut attributes: Vec<Attribute> = Vec::new();
            attributes.push(attribute("action", String::from_str("refund")));
            attributes.push(attribute("sender", sender.clone()));
            Ok(Response { messages, attributes })
        },
    }
}

/// Why a proposal cannot be slashed, if it cannot.
pub open spec fn slash_failure(prop: Proposal, block: BlockInfo, funds_len: int) -> Option<
    ContractError,
> {
    if funds_len > 0 {
        Some(ContractError::FundsNotAllowed {  })
    } else if prop.status_at(block) != Status::Rejected {
        Some(ContractError::NotRejected {  })
    } else if !prop.vetoed() {
        Some(ContractError::ProposalNotVetoed {  })
    } else if prop.is_slashed {
        Some(ContractError::AlreadySlashed {  })
    } else {
        None
    }
}

/// The proposal as a successful slash leaves it.
pub open spec fn slashed(prop: Proposal, block: BlockInfo) -> Proposal {
    Proposal { status: prop.status_at(block), is_slashed: true, ..prop }
}

/// Burns the whole deposit pool of a rejected, vetoed proposal, once.
pub fn execute_slash(
    prop: &mut Proposal,
    block: &BlockInfo,
    funds: &Vec<Coin>,
    sender: &String,
    contract_address: &String,
) -> (r: Result<Response, ContractError>)
    requires
        old(prop).well_formed(),
    ensures
        r is Err <==> slash_failure(*old(prop), *block, funds@.len() as int) is Some,
        r is Err ==> r->Err_0 == slash_failure(*old(prop), *block, funds@.len() as int)->Some_0
            && *final(prop) == *old(prop),
        r is Ok ==> {
            &&& *final(prop) == slashed(*old(prop), *block)
            &&& r->Ok_0.messages@.len() == 1
            &&& r->Ok_0.messages@[0] == CosmosMsg::Custom(
                ComdexMessages::MsgBurnGovTokensForApp {
                    app_id: old(prop).app_mapping_id,
                    amount: Coin {
                        denom: old(prop).token_denom,
                        amount: old(prop).current_deposit,
                    },
                    from: *contract_address,
                },
            )
            &&& r->Ok_0.attributes@.len() == 2
            &&& r->Ok_0.attributes@[0].key@ == "action"@
            &&& r->Ok_0.attributes@[0].value@ == "Slash"@
            &&& r->Ok_0.attributes@[1].key@ == "trigger_address"@
            &&& r->Ok_0.attributes@[1].value == *sender
        },
        old(prop).consistent() ==> final(prop).consistent(),
{
    if funds.len() > 0 {
        return Err(ContractError::FundsNotAllowed {  });
    }
    if prop.current_status(block) != Status::Rejected {
        return Err(ContractError::NotRejected {  });
    }
    if !prop.check_vetoed(block) {
        return Err(ContractError::ProposalNotVetoed {  });
    }
    if prop.is_slashed {
        return Err(ContractError::AlreadySlashed {  });
    }
    prop.update_status(block);
    prop.is_slashed = true;
    let burn = ComdexMessages::MsgBurnGovTokensForApp {
        app_id: prop.app_mapping_id,
        amount: Coin { denom: prop.token_denom.clone(), amount: prop.current_deposit },
        from: contract_address.clone(),
    };
    let mut messages: Vec<CosmosMsg> = Vec::new();
    messages.push(CosmosMsg::Custom(burn));
    let mut attributes: Vec<Attribute> = Vec::new();
    attributes.push(attribute("action", String::from_str("Slash")));
    attributes.push(attribute("trigger_address", sender.clone()));
    Ok(Response { messages, attributes })
}

/// Slashing and refunding exclude each other on one deposit pool: once a
/// proposal is slashed, a refund at any later block fails as slashed; and
/// wherever a refund is allowed, no slash is, at that block or any other.
pub proof fn lemma_slash_refund_exclusive(prop: Proposal, at: BlockInfo, later: BlockInfo, has_deposit: bool)
    requires
        prop.consistent(),
    ensures
        slash_failure(prop, at, 0) is None ==> refund_failure(
            slashed(prop, at),
            later,
            0,
            has_deposit,
        ) == Some(ContractError::SlashedProposal {  }),
        refund_failure(prop, at, 0, has_deposit) is None ==> slash_failure(prop, later, 0) is Some,
{
}

} // verus!
