use governance::decimal::Decimal;
use governance::gov_query::{get_all_up_info_by_app, next_id, record_app_proposal, ProposalResponseTotal};
use governance::gov_state::{AppGovConfig, Duration, Expiration, Status, Threshold, ThresholdQuorum, Votes};
use governance::governance::{
    instantiate, update_locking_contract, Config, ContractError, InstantiateMsg,
};
use governance::migration::{check_migration, compare_text, ContractVersion, MigrateError};
use governance::types::{Coin, Timestamp};

fn stored(contract: &str, version: &str) -> ContractVersion {
    ContractVersion { contract: contract.to_string(), version: version.to_string() }
}

#[test]
fn migration_accepts_same_contract_not_newer() {
    assert_eq!(check_migration(&stored("crates.io:governance", "0.1.0"), "crates.io:governance", "0.1.0"), Ok(()));
    assert_eq!(check_migration(&stored("crates.io:governance", "0.0.9"), "crates.io:governance", "0.1.0"), Ok(()));
    assert_eq!(
        check_migration(&stored("crates.io:governance", "0.2.0"), "crates.io:governance", "0.1.0"),
        Err(MigrateError::NewerVersion)
    );
    assert_eq!(
        check_migration(&stored("gov-locker", "0.1.0"), "crates.io:governance", "0.1.0"),
        Err(MigrateError::OtherContract)
    );
    assert_eq!(compare_text("abc", "abd"), std::cmp::Ordering::Less);
    assert_eq!(compare_text("ab", "a"), std::cmp::Ordering::Greater);
    assert_eq!(compare_text("", ""), std::cmp::Ordering::Equal);
}

#[test]
fn ids_count_up_and_stop_at_the_limit() {
    let mut count: u64 = 0;
    assert_eq!(next_id(&mut count), Ok(1));
    assert_eq!(next_id(&mut count), Ok(2));
    let mut full = u64::MAX;
    assert_eq!(next_id(&mut full), Err(ContractError::Overflow {}));
    assert_eq!(full, u64::MAX);
}

fn with_votes(id: u64, votes: Votes) -> ProposalResponseTotal {
    ProposalResponseTotal {
        id,
        title: String::new(),
        start_time: Timestamp::from_nanos(0),
        description: String::new(),
        start_height: 0,
        expires: Expiration::Never,
        msgs: vec![],
        status: Status::Open,
        duration: Duration::Time(1),
        threshold: ThresholdQuorum { threshold: Decimal::percent(50), quorum: Decimal::percent(10) },
        total_weight: 1,
        votes,
        proposer: String::new(),
        token_denom: String::new(),
        current_deposit: 0,
    }
}

#[test]
fn participation_sums_cast_weight() {
    let info = AppGovConfig { proposal_count: 2, current_supply: 5, active_participation_supply: 0 };
    let all = vec![
        with_votes(1, Votes { yes: 1, no: 2, abstain: 3, veto: 4 }),
        with_votes(2, Votes { yes: 10, no: 0, abstain: 0, veto: 0 }),
    ];
    assert_eq!(
        get_all_up_info_by_app(&info, 700, &all),
        Ok(AppGovConfig { proposal_count: 2, current_supply: 700, active_participation_supply: 20 })
    );
    let huge = vec![
        with_votes(1, Votes { yes: u128::MAX, no: 0, abstain: 0, veto: 0 }),
        with_votes(2, Votes { yes: 1, no: 0, abstain: 0, veto: 0 }),
    ];
    assert_eq!(get_all_up_info_by_app(&info, 700, &huge), Err(ContractError::Overflow {}));
}

#[test]
fn setup_refuses_funds_and_keeps_the_locking_contract_named() {
    let msg = InstantiateMsg {
        threshold: Threshold::ThresholdQuorum { threshold: Decimal::percent(50), quorum: Decimal::percent(33) },
        locking_contract: "locker".to_string(),
    };
    let paid = vec![Coin { denom: "x".to_string(), amount: 1 }];
    assert_eq!(instantiate(msg.clone(), &paid), Err(ContractError::FundsNotAllowed {}));
    let mut cfg: Config = instantiate(msg, &vec![]).unwrap();
    assert_eq!(update_locking_contract(&mut cfg, String::new()), Err(ContractError::InvalidAddress {}));
    assert_eq!(cfg.locking_contract, "locker");
    assert_eq!(update_locking_contract(&mut cfg, "locker2".to_string()), Ok(()));
    assert_eq!(cfg.locking_contract, "locker2");
}

#[test]
fn app_figures_count_proposals() {
    let mut figures = AppGovConfig { proposal_count: 0, current_supply: 0, active_participation_supply: 9 };
    assert_eq!(record_app_proposal(&mut figures, 1000), Ok(()));
    assert_eq!(figures, AppGovConfig { proposal_count: 1, current_supply: 1000, active_participation_supply: 9 });
    let mut full = AppGovConfig { proposal_count: u64::MAX, current_supply: 0, active_participation_supply: 0 };
    assert_eq!(record_app_proposal(&mut full, 1), Err(ContractError::Overflow {}));
}
