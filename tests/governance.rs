use governance::bindings::{ComdexMessages, GetAppResponse, MessageValidateResponse};
use governance::decimal::{fraction_of, Decimal};
use governance::gov_query::{
    list_proposals, list_votes, query_proposal_detailed, query_threshold, query_vote,
    reverse_proposals, AppProposalConfig, ProposalResponse, ThresholdResponse, VoteInfo, VoterBallot,
};
use governance::gov_state::{
    Ballot, Duration, Expiration, Proposal, Status, Threshold, ThresholdQuorum, Vote, Votes,
};
use governance::governance::{
    execute_deposit, execute_execute, execute_propose, execute_refund, execute_slash,
    execute_vote, instantiate, ContractError, InstantiateMsg, Propose,
};
use governance::types::{BankMsg, BlockInfo, Coin, CosmosMsg, Timestamp};

const OWNER: &str = "admin0001";

fn mock_block() -> BlockInfo {
    BlockInfo { height: 12_345, time: Timestamp::from_nanos(1_571_797_419_879_305_533) }
}

fn rule(threshold: Decimal, quorum: Decimal) -> ThresholdQuorum {
    ThresholdQuorum { threshold, quorum }
}

fn base_proposal(id: u64) -> Proposal {
    Proposal {
        title: "prop".to_string(),
        start_time: Timestamp::from_nanos(1_655_745_339),
        description: "test prop".to_string(),
        start_height: 43,
        expires: Expiration::AtTime(Timestamp::from_nanos(1_655_745_430)),
        msgs: vec![ComdexMessages::MsgWhitelistAppIdVaultInterest { app_id: 33 }],
        status: Status::Passed,
        duration: Duration::Time(40),
        threshold: rule(Decimal::percent(50), Decimal::percent(33)),
        total_weight: 14,
        votes: Votes { yes: 32, no: 24, abstain: 10, veto: 3 },
        deposit: vec![Coin { denom: "vote here".to_string(), amount: 123 }],
        proposer: "validator201".to_string(),
        token_denom: "toVote".to_string(),
        min_deposit: 45,
        current_deposit: 56,
        app_mapping_id: id,
        is_slashed: true,
    }
}

fn plain_proposal(denom: &str) -> Proposal {
    Proposal {
        title: "title".to_string(),
        start_time: Timestamp::from_seconds(1200),
        description: "description".to_string(),
        start_height: 10,
        expires: Expiration::AtHeight(20),
        msgs: vec![],
        status: Status::Pending,
        duration: Duration::Height(10),
        threshold: rule(Decimal::one(), Decimal::one()),
        total_weight: 0,
        votes: Votes { yes: 0, no: 0, abstain: 0, veto: 0 },
        deposit: vec![],
        proposer: "sender".to_string(),
        token_denom: denom.to_string(),
        min_deposit: 100,
        current_deposit: 0,
        app_mapping_id: 1,
        is_slashed: false,
    }
}

fn block_at(seconds: u64, height: u64) -> BlockInfo {
    BlockInfo { height, time: Timestamp::from_seconds(seconds) }
}

fn valid_config() -> governance::governance::Config {
    instantiate(
        InstantiateMsg {
            threshold: Threshold::ThresholdQuorum {
                threshold: Decimal::percent(50),
                quorum: Decimal::percent(33),
            },
            locking_contract: "locking_contract".to_string(),
        },
        &vec![],
    )
    .unwrap()
}

fn app() -> GetAppResponse {
    GetAppResponse { min_gov_deposit: 100, gov_time_in_seconds: 3600, gov_token_id: 7 }
}

fn accepted() -> MessageValidateResponse {
    MessageValidateResponse { found: true, err: String::new() }
}

fn proposal_msg(msgs: Vec<ComdexMessages>) -> Propose {
    Propose {
        title: "propose".to_string(),
        description: "test_propose".to_string(),
        msgs,
        latest: Some(Expiration::Never),
        app_id_param: 33,
    }
}

fn coins(amount: u128, denom: &str) -> Vec<Coin> {
    vec![Coin { denom: denom.to_string(), amount }]
}

#[test]
fn contract_proper_initialization() {
    // Empty locking contract address is not permitted
    let msg = InstantiateMsg {
        threshold: Threshold::ThresholdQuorum { threshold: Decimal::one(), quorum: Decimal::one() },
        locking_contract: "".to_string(),
    };
    let result = instantiate(msg, &vec![]).unwrap_err();
    match result {
        ContractError::InvalidAddress {} => {}
        e => panic!("{:?}", e),
    };

    let not_acceptable_msg1 = InstantiateMsg {
        threshold: Threshold::AbsoluteCount { weight: 10 },
        locking_contract: "locking_contract".to_string(),
    };
    let not_acceptable_msg2 = InstantiateMsg {
        threshold: Threshold::AbsolutePercentage { percentage: Decimal::percent(50) },
        locking_contract: "locking_contract".to_string(),
    };
    let expected_msg = InstantiateMsg {
        threshold: Threshold::ThresholdQuorum {
            threshold: Decimal::percent(50),
            quorum: Decimal::percent(33),
        },
        locking_contract: "locking_contract".to_string(),
    };

    let res1 = instantiate(not_acceptable_msg1, &vec![]);
    assert_eq!(res1, Err(ContractError::AbsoluteCountNotAccepted {}));

    let res2 = instantiate(not_acceptable_msg2, &vec![]);
    assert_eq!(res2, Err(ContractError::AbsolutePercentageNotAccepted {}));

    let res3 = instantiate(expected_msg, &vec![]);
    assert_ne!(res3, Err(ContractError::AbsoluteCountNotAccepted {}));
    assert_ne!(res3, Err(ContractError::AbsolutePercentageNotAccepted {}));
    assert_ne!(res3, Err(ContractError::InvalidThreshold {}));
    assert_ne!(res3, Err(ContractError::ZeroQuorumThreshold {}));
    assert_ne!(res3, Err(ContractError::UnreachableQuorumThreshold {}));
}

#[test]
fn test_propose() {
    let cfg = valid_config();
    let msgs_com = vec![
        ComdexMessages::MsgWhitelistAppIdVaultInterest { app_id: 33 },
        ComdexMessages::MsgWhitelistAppIdVaultInterest { app_id: 34 },
    ];
    let k = execute_propose(
        &cfg,
        &mock_block(),
        &OWNER.to_string(),
        &vec![],
        proposal_msg(msgs_com),
        &app(),
        &"gov".to_string(),
        100,
        10,
        &accepted(),
    );
    assert_eq!(k, Err(ContractError::ExtraMessages {}));

    let f = execute_propose(
        &cfg,
        &mock_block(),
        &OWNER.to_string(),
        &vec![],
        proposal_msg(vec![]),
        &app(),
        &"gov".to_string(),
        100,
        10,
        &accepted(),
    );
    assert_eq!(f, Err(ContractError::NoMessage {}));
}

#[test]
fn test_execute() {
    let id = 1;
    let mut prop = base_proposal(id);
    prop.update_status(&mock_block());

    let res = execute_execute(&mut prop, &mock_block(), &vec![], &OWNER.to_string());
    assert_ne!(res, Err(ContractError::WrongExecuteStatus {}));
    assert_ne!(res, Err(ContractError::NotExpiredYet {}));
    let res = res.unwrap();
    assert_eq!(
        res.messages,
        vec![CosmosMsg::Custom(ComdexMessages::MsgWhitelistAppIdVaultInterest { app_id: 33 })]
    );
    assert_eq!(res.attributes[0].key, "action");
    assert_eq!(res.attributes[0].value, "execute");
    assert_eq!(res.attributes[1].key, "sender");
    assert_eq!(res.attributes[1].value, OWNER);
    assert_eq!(prop.status, Status::Executed);
}

#[test]
fn test_refund_works() {
    let mut prop = base_proposal(1);
    prop.status = Status::Pending;
    prop.expires = Expiration::Never;
    prop.duration = Duration::Time(50000000);
    prop.votes = Votes { yes: 10, no: 5, abstain: 10, veto: 39 };
    prop.min_deposit = 33;
    prop.is_slashed = false;
    assert_eq!(prop.status, Status::Pending);

    // a refund call that carries funds is refused
    let mut deposit = Some(coins(10, "coin"));
    let g = execute_refund(&prop, &mock_block(), &coins(10, "coin"), &mut deposit, &OWNER.to_string())
        .unwrap_err();
    match g {
        ContractError::FundsNotAllowed {} => {}
        e => panic!("{:?}", e),
    };

    prop.status = Status::Passed;
    let votes = prop.votes;
    assert_eq!(39, votes.veto);
    assert_eq!(fraction_of(votes.total(), Decimal::percent(33)), 21);
}

#[test]
fn test_vote() {
    let id = 1;
    let mut prop = base_proposal(id);
    prop.msgs = vec![ComdexMessages::MsgWhitelistAppIdVaultInterest { app_id: id }];
    prop.expires = Expiration::AtTime(Timestamp::from_nanos(1_655_897_190));
    prop.duration = Duration::Time(400000000);
    prop.total_weight = 40;
    prop.is_slashed = false;

    assert_eq!(prop.current_status(&mock_block()), Status::Passed);

    // voting is only possible while the proposal is open
    let k = execute_vote(&mut prop.clone(), &mock_block(), &vec![], None, 5, Vote::Yes);
    assert_eq!(k, Err(ContractError::NotOpen {}));

    prop.status = Status::Open;
    prop.expires = Expiration::Never;
    assert_eq!(prop.expires, Expiration::Never);
    let mut voted = prop.clone();
    let m = execute_vote(&mut voted, &mock_block(), &vec![], None, 5, Vote::Yes);
    assert_eq!(m, Ok(Ballot { weight: 5, vote: Vote::Yes }));
    assert_eq!(voted.votes.yes, 37);
    assert_eq!(voted.status, Status::Open);
    assert_eq!(voted.current_status(&mock_block()), Status::Open);
    assert!(!prop.expires.is_expired(&mock_block()));
    assert_eq!(prop.current_status(&mock_block()), Status::Open);
    assert_eq!(prop.status, Status::Open);
}

#[test]
fn test_slash() {
    let id = 1;
    let mut prop = base_proposal(id);
    prop.status = Status::Rejected;
    prop.total_weight = 40;
    prop.votes = Votes { yes: 32, no: 24, abstain: 10, veto: 40 };
    prop.app_mapping_id = 33;
    prop.is_slashed = false;
    prop.expires = Expiration::Never;
    prop.update_status(&mock_block());

    let res = execute_slash(
        &mut prop,
        &mock_block(),
        &vec![],
        &OWNER.to_string(),
        &"cosmos2contract".to_string(),
    );
    assert_ne!(res, Err(ContractError::NotRejected {}));
    assert_ne!(res, Err(ContractError::AlreadySlashed {}));
    assert_eq!(prop.is_slashed, true);
    let res = res.unwrap();
    assert_eq!(
        res.messages,
        vec![CosmosMsg::Custom(ComdexMessages::MsgBurnGovTokensForApp {
            app_id: 33,
            amount: Coin { denom: "toVote".to_string(), amount: 56 },
            from: "cosmos2contract".to_string(),
        })]
    );
    assert_eq!(res.attributes[0].key, "action");
    assert_eq!(res.attributes[0].value, "Slash");
    assert_eq!(res.attributes[1].key, "trigger_address");
    assert_eq!(res.attributes[1].value, OWNER);
}

#[test]
fn test_query() {
    let id = 1;
    let cfg = valid_config();
    let mut prop = base_proposal(id);
    prop.app_mapping_id = 33;
    prop.update_status(&mock_block());

    let res = query_threshold(&cfg, &prop);
    assert_eq!(
        res,
        ThresholdResponse {
            threshold: Decimal::percent(50),
            quorum: Decimal::percent(33),
            total_weight: 14
        }
    );

    let res = query_proposal_detailed(id, &prop, &mock_block());
    assert_eq!(res.id, id);
    assert_eq!(res.title, "prop".to_string());
    assert_eq!(res.start_time, Timestamp::from_nanos(1_655_745_339));
    assert_eq!(res.description, "test prop".to_string());
    assert_eq!(res.start_height, 43);
    assert_eq!(res.expires, Expiration::AtTime(Timestamp::from_nanos(1_655_745_430)));
    assert_eq!(res.msgs, vec![ComdexMessages::MsgWhitelistAppIdVaultInterest { app_id: 33 }]);
    assert_eq!(res.status, Status::Passed);
    assert_eq!(res.duration, Duration::Time(40));
    assert_eq!(res.threshold, rule(Decimal::percent(50), Decimal::percent(33)));
    assert_eq!(res.total_weight, 14);
    assert_eq!(res.votes, Votes { yes: 32, no: 24, abstain: 10, veto: 3 });
    assert_eq!(res.proposer, "validator201".to_string());
    assert_eq!(res.token_denom, "toVote".to_string());
    assert_eq!(res.current_deposit, 56);

    let expected = vec![ProposalResponse {
        id,
        title: "prop".to_string(),
        description: "test prop".to_string(),
        msgs: vec![ComdexMessages::MsgWhitelistAppIdVaultInterest { app_id: 33 }],
        status: Status::Passed,
        expires: Expiration::AtTime(Timestamp::from_nanos(1_655_745_430)),
        threshold: ThresholdResponse {
            threshold: Decimal::percent(50),
            quorum: Decimal::percent(33),
            total_weight: 14,
        },
    }];
    let entries = vec![AppProposalConfig { proposal_id: id, proposal: prop.clone() }];
    assert_eq!(list_proposals(&entries, &mock_block(), None, None), expected);
    assert_eq!(reverse_proposals(&entries, &mock_block(), None, None), expected);

    let ballot = Ballot { weight: 10, vote: Vote::Yes };
    let res = query_vote(id, OWNER.to_string(), Some(ballot));
    assert_eq!(
        res.vote,
        Some(VoteInfo { proposal_id: 1, voter: "admin0001".to_string(), vote: Vote::Yes, weight: 10 })
    );

    let ballots = vec![VoterBallot { voter: OWNER.to_string(), ballot }];
    assert_eq!(
        list_votes(id, &ballots, None),
        vec![VoteInfo { proposal_id: 1, voter: "admin0001".to_string(), vote: Vote::Yes, weight: 10 }]
    );
}

#[test]
fn test_deposit_non_gov_token() {
    let env = block_at(1000, 10);
    let denom = "DNM";
    let mut prop = plain_proposal(denom);
    let mut deposits: Vec<Coin> = vec![];
    let sender = "sender".to_string();

    // Deposit gov token
    let result = execute_deposit(&mut prop, &env, &mut deposits, &coins(100, denom), &sender).unwrap();
    assert_eq!(result.messages.len(), 0);

    assert_eq!(deposits.len(), 1);
    assert_eq!(deposits[0].amount, 100);
    assert_eq!(deposits[0].denom, denom.to_string());

    match prop.status {
        Status::Pending => {}
        e => panic!("{:?}", e),
    };
    assert_eq!(prop.current_deposit, 100u128);
    assert_eq!(prop.deposit.len(), 1);
    assert_eq!(prop.deposit[0].amount, 100u128);
    assert_eq!(prop.deposit[0].denom, denom.to_string());

    // Deposit non-gov token
    let result = execute_deposit(&mut prop, &env, &mut deposits, &coins(100, "denom2"), &sender).unwrap_err();
    assert_eq!(result, ContractError::IncorrectDenomDeposit {});

    assert_eq!(prop.current_deposit, 100);
    assert_eq!(prop.deposit.len(), 1);
}

#[test]
fn test_refund_invalid_requests() {
    let env = block_at(1000, 10);
    let mut prop = plain_proposal("denom1");
    let sender = "sender".to_string();
    let mut deposit = Some(coins(5, "denom1"));

    let result = execute_refund(&prop, &env, &vec![], &mut deposit, &sender).unwrap_err();
    match result {
        ContractError::PendingProposal {} => {}
        e => panic!("{:?}", e),
    };

    prop.status = Status::Open;
    let result = execute_refund(&prop, &env, &vec![], &mut deposit, &sender).unwrap_err();
    match result {
        ContractError::OpenProposal {} => {}
        e => panic!("{:?}", e),
    };
}

#[test]
fn test_slash_invalid_requests() {
    let mut env = block_at(100, 10);
    let mut prop = plain_proposal("denom1");
    let sender = "sender".to_string();
    let contract = "contract".to_string();

    let result = execute_slash(&mut prop, &env, &vec![], &sender, &contract).unwrap_err();
    match result {
        ContractError::NotRejected {} => {}
        e => panic!("{:?}", e),
    };

    // rejected but not vetoed
    env = block_at(5000, 30);
    let result = execute_slash(&mut prop, &env, &vec![], &sender, &contract).unwrap_err();
    match result {
        ContractError::ProposalNotVetoed {} => {}
        e => panic!("{:?}", e),
    };
}

#[test]
fn propose_message_count_and_pending_deposit() {
    let cfg = valid_config();
    let block = mock_block();
    let sender = OWNER.to_string();
    let action = ComdexMessages::MsgWhitelistAppIdVaultInterest { app_id: 33 };
    let mut one = proposal_msg(vec![action.clone()]);
    one.latest = None;

    let below = execute_propose(
        &cfg, &block, &sender, &coins(99, "gov"), one.clone(), &app(), &"gov".to_string(), 1000, 10,
        &accepted(),
    )
    .unwrap();
    assert_eq!(below.status, Status::Pending);
    assert_eq!(below.votes, Votes { yes: 10, no: 0, abstain: 0, veto: 0 });
    assert_eq!(below.current_deposit, 99);
    assert_eq!(below.total_weight, 1000);
    assert_eq!(
        below.expires,
        Expiration::AtTime(block.time.plus_seconds(3600).unwrap())
    );

    let enough = execute_propose(
        &cfg, &block, &sender, &coins(100, "gov"), one, &app(), &"gov".to_string(), 1000, 10,
        &accepted(),
    )
    .unwrap();
    assert_eq!(enough.status, Status::Open);
}

#[test]
fn propose_errors() {
    let cfg = valid_config();
    let block = mock_block();
    let sender = OWNER.to_string();
    let one = proposal_msg(vec![ComdexMessages::MsgWhitelistAppIdVaultInterest { app_id: 33 }]);
    let gov = "gov".to_string();
    let run = |p: Propose, funds: Vec<Coin>, app: GetAppResponse, denom: &String, supply: u128,
               verdict: MessageValidateResponse| {
        execute_propose(&cfg, &block, &sender, &funds, p, &app, denom, supply, 1, &verdict)
    };
    let no_token = GetAppResponse { gov_token_id: 0, ..app() };
    assert_eq!(run(one.clone(), coins(1, "gov"), no_token, &gov, 10, accepted()), Err(ContractError::NoGovToken {}));
    assert_eq!(run(one.clone(), coins(1, "gov"), app(), &String::new(), 10, accepted()), Err(ContractError::NoGovToken {}));
    assert_eq!(run(one.clone(), coins(1, "gov"), app(), &gov, 0, accepted()), Err(ContractError::ZeroSupply {}));
    let mut by_height = one.clone();
    by_height.latest = Some(Expiration::AtHeight(5));
    assert_eq!(run(by_height, coins(1, "gov"), app(), &gov, 10, accepted()), Err(ContractError::WrongExpiration {}));
    let two = vec![Coin { denom: "gov".to_string(), amount: 1 }, Coin { denom: "x".to_string(), amount: 1 }];
    assert_eq!(run(one.clone(), two, app(), &gov, 10, accepted()), Err(ContractError::AdditionalDenomDeposit {}));
    assert_eq!(run(one.clone(), vec![], app(), &gov, 10, accepted()), Err(ContractError::InsufficientFundsSend {}));
    assert_eq!(run(one.clone(), coins(1, "x"), app(), &gov, 10, accepted()), Err(ContractError::DenomNotFound {}));
    let other_app = proposal_msg(vec![ComdexMessages::MsgWhitelistAppIdVaultInterest { app_id: 34 }]);
    assert_eq!(run(other_app, coins(1, "gov"), app(), &gov, 10, accepted()), Err(ContractError::DifferentAppID {}));
    let burn = proposal_msg(vec![ComdexMessages::MsgBurnGovTokensForApp {
        app_id: 33,
        amount: Coin { denom: "gov".to_string(), amount: 1 },
        from: "x".to_string(),
    }]);
    assert_eq!(run(burn, coins(1, "gov"), app(), &gov, 10, accepted()), Err(ContractError::ProposalNotEligible {}));
    let refused = MessageValidateResponse { found: false, err: "no such pair".to_string() };
    assert_eq!(
        run(one, coins(1, "gov"), app(), &gov, 10, refused),
        Err(ContractError::ProposalError { err: "no such pair".to_string() })
    );
}

#[test]
fn rejected_refund_and_vetoed_slash() {
    let block = mock_block();
    let sender = "voter".to_string();
    let contract = "contract".to_string();

    // rejected at expiry, vetoes at most 33%: refundable per voter
    let mut mild = base_proposal(1);
    mild.status = Status::Open;
    mild.is_slashed = false;
    mild.total_weight = 100;
    mild.votes = Votes { yes: 10, no: 60, abstain: 0, veto: 30 };
    assert_eq!(mild.current_status(&block), Status::Rejected);
    assert!(!mild.check_vetoed(&block));
    let mut deposit = Some(coins(7, "toVote"));
    let res = execute_refund(&mild, &block, &vec![], &mut deposit, &sender).unwrap();
    assert_eq!(
        res.messages,
        vec![CosmosMsg::Bank(BankMsg::Send { to_address: sender.clone(), amount: coins(7, "toVote") })]
    );
    assert_eq!(deposit, None);
    assert_eq!(
        execute_refund(&mild, &block, &vec![], &mut deposit, &sender),
        Err(ContractError::NoDeposit {})
    );
    assert_eq!(
        execute_slash(&mut mild.clone(), &block, &vec![], &sender, &contract),
        Err(ContractError::ProposalNotVetoed {})
    );

    // vetoed by more than 33%: no refund, exactly one slash of the whole pool
    let mut vetoed = mild.clone();
    vetoed.votes = Votes { yes: 10, no: 56, abstain: 0, veto: 34 };
    assert!(vetoed.check_vetoed(&block));
    let mut deposit = Some(coins(7, "toVote"));
    assert_eq!(
        execute_refund(&vetoed, &block, &vec![], &mut deposit, &sender),
        Err(ContractError::SlashedProposal {})
    );
    let res = execute_slash(&mut vetoed, &block, &vec![], &sender, &contract).unwrap();
    assert_eq!(
        res.messages,
        vec![CosmosMsg::Custom(ComdexMessages::MsgBurnGovTokensForApp {
            app_id: 1,
            amount: Coin { denom: "toVote".to_string(), amount: 56 },
            from: contract.clone(),
        })]
    );
    assert_eq!(
        execute_slash(&mut vetoed, &block, &vec![], &sender, &contract),
        Err(ContractError::AlreadySlashed {})
    );
    assert_eq!(
        execute_refund(&vetoed, &block, &vec![], &mut deposit, &sender),
        Err(ContractError::SlashedProposal {})
    );
}

#[test]
fn quorum_gate_keeps_short_proposals_from_passing() {
    let block = mock_block();
    let mut p = base_proposal(1);
    p.status = Status::Open;
    p.total_weight = 1000;
    // 329 of 1000 is short of a 33% quorum, however the votes split
    p.votes = Votes { yes: 329, no: 0, abstain: 0, veto: 0 };
    assert!(!p.is_passed(&block));
    assert_eq!(p.current_status(&block), Status::Rejected);
    p.votes = Votes { yes: 330, no: 0, abstain: 0, veto: 0 };
    assert!(p.is_passed(&block));
    assert_eq!(p.current_status(&block), Status::Passed);
}

#[test]
fn changing_a_vote_keeps_the_total() {
    let block = mock_block();
    let mut p = base_proposal(1);
    p.status = Status::Open;
    p.expires = Expiration::Never;
    p.votes = Votes { yes: 10, no: 0, abstain: 0, veto: 0 };
    let first = execute_vote(&mut p, &block, &vec![], None, 5, Vote::No).unwrap();
    assert_eq!(p.votes.total(), 15);
    let second = execute_vote(&mut p, &block, &vec![], Some(first), 5, Vote::Veto).unwrap();
    assert_eq!(second, Ballot { weight: 5, vote: Vote::Veto });
    assert_eq!(p.votes, Votes { yes: 10, no: 0, abstain: 0, veto: 5 });
    assert_eq!(p.votes.total(), 15);
    assert_eq!(
        execute_vote(&mut p, &block, &coins(1, "x"), None, 5, Vote::No),
        Err(ContractError::FundsNotAllowed {})
    );
}

#[test]
fn deposit_opens_a_pending_proposal() {
    let env = block_at(1000, 10);
    let mut prop = plain_proposal("DNM");
    let mut deposits: Vec<Coin> = vec![];
    let sender = "sender".to_string();
    execute_deposit(&mut prop, &env, &mut deposits, &coins(100, "DNM"), &sender).unwrap();
    assert_eq!(prop.status, Status::Pending);
    execute_deposit(&mut prop, &env, &mut deposits, &coins(1, "DNM"), &sender).unwrap();
    assert_eq!(prop.status, Status::Open);
    assert_eq!(deposits, coins(101, "DNM"));
    assert_eq!(
        execute_deposit(&mut prop, &env, &mut deposits, &vec![], &sender),
        Err(ContractError::SingleDenomDeposit {})
    );
    let expired = block_at(5000, 30);
    prop.status = Status::Pending;
    assert_eq!(
        execute_deposit(&mut prop, &expired, &mut deposits, &coins(1, "DNM"), &sender),
        Err(ContractError::CannotDeposit {})
    );
}

#[test]
fn execute_needs_a_passed_proposal() {
    let mut p = plain_proposal("DNM");
    assert_eq!(
        execute_execute(&mut p, &block_at(100, 10), &vec![], &"x".to_string()),
        Err(ContractError::WrongExecuteStatus {})
    );
}

#[test]
fn rejection_while_open_and_at_expiry() {
    let open_block = block_at(100, 10);
    let mut p = plain_proposal("DNM");
    p.threshold = rule(Decimal::percent(50), Decimal::percent(10));
    p.total_weight = 100;
    p.expires = Expiration::AtHeight(20);
    // cast: 30 yes, 20 no; still open, 50 uncast weight could go either way
    p.votes = Votes { yes: 30, no: 20, abstain: 0, veto: 0 };
    assert!(p.is_passed(&open_block));
    assert!(!p.is_rejected(&open_block));
    // short of the threshold: rejected whatever the block
    p.votes = Votes { yes: 10, no: 40, abstain: 0, veto: 0 };
    assert!(!p.is_passed(&open_block));
    assert!(p.is_rejected(&open_block));
    assert!(p.is_rejected(&block_at(100, 30)));
}

fn pair_update() -> ComdexMessages {
    ComdexMessages::MsgUpdatePairsVault {
        app_id: 33,
        ext_pair_id: 4,
        stability_fee: Decimal::percent(2),
        closing_fee: Decimal::percent(1),
        liquidation_penalty: Decimal::percent(12),
        draw_down_fee: Decimal::raw(5_000_000_000_000_000),
        min_cr: Decimal::percent(150),
        debt_ceiling: 1_000_000,
        debt_floor: 100,
        min_usd_value_left: 10,
        is_vault_active: true,
    }
}

#[test]
fn executed_action_keeps_every_parameter() {
    let mut prop = base_proposal(1);
    prop.msgs = vec![pair_update()];
    prop.update_status(&mock_block());
    let res = execute_execute(&mut prop, &mock_block(), &vec![], &OWNER.to_string()).unwrap();
    assert_eq!(res.messages, vec![CosmosMsg::Custom(pair_update())]);

    let auction = ComdexMessages::MsgSetAuctionMappingForApp {
        app_id: 33,
        asset_id: vec![1, 2],
        is_surplus_auction: vec![true, false],
        is_debt_auction: vec![false, true],
        asset_out_oracle_price: vec![true, true],
        asset_out_price: vec![7, 8],
        is_distributor: vec![false, false],
    };
    let mut prop = base_proposal(2);
    prop.msgs = vec![auction.clone()];
    let res = execute_execute(&mut prop, &mock_block(), &vec![], &OWNER.to_string()).unwrap();
    assert_eq!(res.messages, vec![CosmosMsg::Custom(auction)]);
}

#[test]
fn auction_parameters_are_proposable() {
    let cfg = valid_config();
    let action = ComdexMessages::MsgAddAuctionParams {
        app_id: 33,
        auction_duration_seconds: 3600,
        buffer: Decimal::percent(120),
        cusp: Decimal::percent(40),
        step: 360,
        price_function_type: 1,
        surplus_id: 1,
        debt_id: 2,
        dutch_id: 3,
        bid_duration_seconds: 600,
    };
    let p = execute_propose(
        &cfg,
        &mock_block(),
        &OWNER.to_string(),
        &coins(100, "gov"),
        proposal_msg(vec![action.clone()]),
        &app(),
        &"gov".to_string(),
        1000,
        10,
        &accepted(),
    )
    .unwrap();
    assert_eq!(p.msgs, vec![action]);
}

#[test]
fn yes_exactly_at_the_threshold_passes_and_is_not_rejected() {
    let block = mock_block();
    let mut p = base_proposal(1);
    p.status = Status::Open;
    p.total_weight = 100;
    // 50% of 60 opinions is 30: exactly 30 yes carries it
    p.votes = Votes { yes: 30, no: 30, abstain: 0, veto: 0 };
    assert!(p.is_passed(&block));
    assert!(!p.is_rejected(&block));
    assert_eq!(p.current_status(&block), Status::Passed);
}
