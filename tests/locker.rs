use governance::decimal::Decimal;
use governance::locker::{
    get_period, handle_lock_nft, handle_unlock_nft, instantiate, withdraw, Account, ContractError,
    InstantiateMsg, LockingPeriod, PeriodWeight, State, Status, TokenSupply,
};
use governance::locker_query::{query_issued_nft, query_unlocked_tokens};
use governance::types::{BankMsg, BlockInfo, Coin, CosmosMsg, Timestamp};

const DENOM: &str = "TKN";

/// Each tier in seconds: t1 is one week, t2 two weeks, t3 three, t4 four;
/// the unlock period is one week.
fn init_msg() -> InstantiateMsg {
    InstantiateMsg {
        t1: PeriodWeight { period: 604_800, weight: Decimal::percent(25) },
        t2: PeriodWeight { period: 1_209_600, weight: Decimal::percent(50) },
        t3: PeriodWeight { period: 1_814_400, weight: Decimal::percent(75) },
        t4: PeriodWeight { period: 2_419_200, weight: Decimal::percent(100) },
        unlock_period: 604_800,
    }
}

fn mock_block() -> BlockInfo {
    BlockInfo { height: 12_345, time: Timestamp::from_nanos(1_571_797_419_879_305_533) }
}

fn account(owner: &str) -> Account {
    Account {
        owner: owner.to_string(),
        nft: None,
        locked: vec![],
        unlocking: vec![],
        unlocked: vec![],
    }
}

fn coins(amount: u128, denom: &str) -> Vec<Coin> {
    vec![Coin { denom: denom.to_string(), amount }]
}

fn later(block: &BlockInfo, seconds: u64) -> BlockInfo {
    BlockInfo { height: block.height + 1, time: block.time.plus_seconds(seconds).unwrap() }
}

#[test]
fn locker_proper_initialization() {
    let msg = init_msg();
    assert_eq!(msg.t1.weight, Decimal::raw(250_000_000_000_000_000));

    let state = instantiate(msg);
    assert_eq!(state.t1, msg.t1);
    assert_eq!(state.t3, msg.t3);
    assert_eq!(state.num_tokens, 0);
}

#[test]
fn lock_create_new_nft() {
    let env = mock_block();
    let imsg = init_msg();
    let mut state = instantiate(imsg);
    let mut acc = account("user1");
    let mut supply = TokenSupply { token: 0, vtoken: 0 };

    let res = handle_lock_nft(
        &mut state,
        &mut acc,
        &mut supply,
        &env,
        &coins(100, DENOM),
        12,
        LockingPeriod::T1,
    )
    .unwrap();
    assert_eq!(res.messages.len(), 0);
    assert_eq!(res.attributes.len(), 2);

    let token = acc.nft.clone().unwrap();
    assert_eq!(token.owner, "user1".to_string());
    assert_eq!(token.token_id, 1u64);
    assert_eq!(token.vtokens.len(), 1);
    assert_eq!(token.vtokens[0].token, Coin { amount: 100, denom: DENOM.to_string() });
    assert_eq!(token.vtokens[0].vtoken, Coin { amount: 25, denom: String::from("vTKN") });
    assert_eq!(token.vtokens[0].start_time, env.time);
    assert_eq!(token.vtokens[0].end_time, env.time.plus_seconds(imsg.t1.period).unwrap());
    assert_eq!(token.vtokens[0].period, LockingPeriod::T1);
    assert_eq!(token.vtokens[0].status, Status::Locked);

    assert_eq!(acc.locked.len(), 1);
    assert_eq!(acc.locked[0].amount, 100u128);
    assert_eq!(acc.locked[0].denom, DENOM.to_string());
}

#[test]
fn lock_different_denom_and_time_period() {
    let env = mock_block();
    let imsg = init_msg();
    let mut state = instantiate(imsg);
    let mut acc = account("owner");
    let mut supply1 = TokenSupply { token: 0, vtoken: 0 };
    let mut supply2 = TokenSupply { token: 0, vtoken: 0 };

    handle_lock_nft(&mut state, &mut acc, &mut supply1, &env, &coins(100, "DNM1"), 10, LockingPeriod::T1)
        .unwrap();
    handle_lock_nft(&mut state, &mut acc, &mut supply2, &env, &coins(100, "DNM2"), 10, LockingPeriod::T2)
        .unwrap();

    let nft = acc.nft.clone().unwrap();
    assert_eq!(nft.vtokens.len(), 2);
    assert_eq!(nft.vtokens[0].token.denom, "DNM1".to_string());
    assert_eq!(nft.vtokens[0].vtoken.denom, "vDNM1".to_string());
    assert_eq!(nft.vtokens[0].token.amount, 100u128);
    assert_eq!(nft.vtokens[0].vtoken.amount, 25u128);
    assert_eq!(nft.vtokens[0].start_time, env.time);
    assert_eq!(nft.vtokens[0].end_time, env.time.plus_seconds(imsg.t1.period).unwrap());
    assert_eq!(nft.vtokens[0].period, LockingPeriod::T1);
    assert_eq!(nft.vtokens[0].status, Status::Locked);

    assert_eq!(nft.vtokens[1].token.denom, "DNM2".to_string());
    assert_eq!(nft.vtokens[1].vtoken.denom, "vDNM2".to_string());
    assert_eq!(nft.vtokens[1].token.amount, 100u128);
    assert_eq!(nft.vtokens[1].vtoken.amount, 50u128);
    assert_eq!(nft.vtokens[1].start_time, env.time);
    assert_eq!(nft.vtokens[1].end_time, env.time.plus_seconds(imsg.t2.period).unwrap());
    assert_eq!(nft.vtokens[1].period, LockingPeriod::T2);
    assert_eq!(nft.vtokens[1].status, Status::Locked);

    assert_eq!(acc.locked.len(), 2);
    assert_eq!(supply1, TokenSupply { token: 100, vtoken: 25 });
    assert_eq!(supply2, TokenSupply { token: 100, vtoken: 50 });
}

#[test]
fn lock_same_denom_and_time_period() {
    let mut env = mock_block();
    let imsg = init_msg();
    let mut state = instantiate(imsg);
    let mut acc = account("owner");
    let mut supply = TokenSupply { token: 0, vtoken: 0 };

    handle_lock_nft(&mut state, &mut acc, &mut supply, &env, &coins(100, DENOM), 10, LockingPeriod::T1)
        .unwrap();

    // forward the time, inside 1 week
    env.time = env.time.plus_seconds(100_000).unwrap();

    handle_lock_nft(&mut state, &mut acc, &mut supply, &env, &coins(100, DENOM), 10, LockingPeriod::T1)
        .unwrap();

    let nft = acc.nft.clone().unwrap();
    assert_eq!(nft.vtokens.len(), 1);
    assert_eq!(nft.vtokens[0].token.amount, 200u128);
    assert_eq!(nft.vtokens[0].vtoken.amount, 50u128);
    assert_eq!(nft.vtokens[0].start_time, env.time);
    assert_eq!(nft.vtokens[0].end_time, env.time.plus_seconds(imsg.t1.period).unwrap());
    assert_eq!(nft.vtokens[0].period, LockingPeriod::T1);
    assert_eq!(nft.vtokens[0].status, Status::Locked);

    assert_eq!(acc.locked.len(), 1);
    assert_eq!(acc.locked[0].amount, 200u128);
    assert_eq!(acc.locked[0].denom, DENOM.to_string());
}

#[test]
fn lock_zero_transfer() {
    let env = mock_block();
    let mut state = instantiate(init_msg());
    let mut acc = account("sender");
    let mut supply = TokenSupply { token: 0, vtoken: 0 };

    let res = handle_lock_nft(&mut state, &mut acc, &mut supply, &env, &coins(0, DENOM), 10, LockingPeriod::T1)
        .unwrap_err();
    match res {
        ContractError::InsufficientFunds { .. } => {}
        e => panic!("{:?}", e),
    };
}

#[test]
fn test_withdraw() {
    let env = mock_block();
    let mut state = instantiate(init_msg());
    let mut acc = account("user1");
    let mut supply = TokenSupply { token: 0, vtoken: 0 };

    handle_lock_nft(&mut state, &mut acc, &mut supply, &env, &coins(100, DENOM), 12, LockingPeriod::T1)
        .unwrap();

    // past the locking period and the unlock period
    let after = later(&env, 604_800 + 604_800 + 1);
    handle_unlock_nft(&state, &mut acc, &after, 12, &DENOM.to_string(), LockingPeriod::T1).unwrap();
    let vtoken = acc.nft.clone().unwrap().vtokens[0].clone();
    assert_eq!(vtoken.token.denom, DENOM.to_string());
    assert_eq!(vtoken.status, Status::Unlocked);

    // Withdrawing 10 tokens
    let res = withdraw(&mut acc, &after, &DENOM.to_string(), 10, LockingPeriod::T1).unwrap();
    assert_eq!(
        res.messages,
        vec![CosmosMsg::Bank(BankMsg::Send {
            to_address: "user1".to_string(),
            amount: coins(10, DENOM),
        })]
    );
    assert_eq!(res.attributes[0].key, "action");
    assert_eq!(res.attributes[0].value, "Withdraw");
    assert_eq!(res.attributes[1].key, "Recipent");
    assert_eq!(res.attributes[1].value, "user1");

    // Should leave 100 - 10 = 90 tokens
    let vtoken = acc.nft.clone().unwrap().vtokens[0].clone();
    assert_eq!(vtoken.token.amount, 90u128);

    // Withdrawing all tokens removes the record
    withdraw(&mut acc, &after, &DENOM.to_string(), 90, LockingPeriod::T1).unwrap();
    assert_eq!(acc.nft.clone().unwrap().vtokens.len(), 0);
    assert_eq!(
        withdraw(&mut acc, &after, &DENOM.to_string(), 1, LockingPeriod::T1),
        Err(ContractError::NotFound {})
    );
}

#[test]
fn test_get_unlocked_tokens() {
    let env = mock_block();
    let mut state = instantiate(init_msg());
    let mut acc = account("user1");
    let mut supply = TokenSupply { token: 0, vtoken: 0 };

    handle_lock_nft(&mut state, &mut acc, &mut supply, &env, &coins(100, DENOM), 12, LockingPeriod::T1)
        .unwrap();
    let after = later(&env, 604_800 + 604_800 + 1);
    handle_unlock_nft(&state, &mut acc, &after, 12, &DENOM.to_string(), LockingPeriod::T1).unwrap();
    let vtoken = acc.nft.clone().unwrap().vtokens[0].clone();
    assert_eq!(vtoken.token.denom, DENOM.to_string());
    assert_eq!(vtoken.status, Status::Unlocked);

    let res = query_unlocked_tokens(&acc, Some(DENOM.to_string())).unwrap();
    assert_eq!(res.tokens, vec![vtoken.token]);
}

#[test]
fn lock_then_relock_before_expiry() {
    let env = mock_block();
    let mut state = instantiate(init_msg());
    let mut acc = account("owner");
    let mut supply = TokenSupply { token: 0, vtoken: 0 };
    handle_lock_nft(&mut state, &mut acc, &mut supply, &env, &coins(100, DENOM), 1, LockingPeriod::T1)
        .unwrap();
    let rec = acc.nft.clone().unwrap().vtokens[0].clone();
    assert_eq!(rec.token.amount, 100);
    assert_eq!(rec.vtoken.amount, 25);
    assert_eq!(rec.vtoken.denom, "vTKN");
    assert_eq!(rec.status, Status::Locked);
    assert_eq!(rec.end_time.nanos, env.time.nanos + 604_800 * 1_000_000_000);

    let again = later(&env, 100_000);
    handle_lock_nft(&mut state, &mut acc, &mut supply, &again, &coins(100, DENOM), 1, LockingPeriod::T1)
        .unwrap();
    let rec = acc.nft.clone().unwrap().vtokens[0].clone();
    assert_eq!(rec.token.amount, 200);
    assert_eq!(rec.vtoken.amount, 50);
    assert_eq!(rec.start_time, again.time);
    assert_eq!(rec.end_time.nanos, env.time.nanos + (100_000 + 604_800) * 1_000_000_000);
    assert_eq!(supply, TokenSupply { token: 200, vtoken: 50 });
    assert_eq!(state.num_tokens, 1);
}

#[test]
fn conversion_rounds_down_on_the_whole_principal() {
    let env = mock_block();
    let mut state = instantiate(init_msg());
    let mut acc = account("owner");
    let mut supply = TokenSupply { token: 0, vtoken: 0 };
    // 3 * 0.25 = 0.75 rounds down to 0; 6 * 0.25 = 1.5 rounds down to 1
    handle_lock_nft(&mut state, &mut acc, &mut supply, &env, &coins(3, DENOM), 1, LockingPeriod::T1)
        .unwrap();
    assert_eq!(acc.nft.clone().unwrap().vtokens[0].vtoken.amount, 0);
    handle_lock_nft(&mut state, &mut acc, &mut supply, &env, &coins(3, DENOM), 1, LockingPeriod::T1)
        .unwrap();
    assert_eq!(acc.nft.clone().unwrap().vtokens[0].vtoken.amount, 1);
    assert_eq!(supply.vtoken, 1);
}

#[test]
fn unlock_waits_for_the_cooldown() {
    let env = mock_block();
    let mut state = instantiate(init_msg());
    let mut acc = account("owner");
    let mut supply = TokenSupply { token: 0, vtoken: 0 };
    handle_lock_nft(&mut state, &mut acc, &mut supply, &env, &coins(100, DENOM), 1, LockingPeriod::T1)
        .unwrap();
    let denom = DENOM.to_string();

    // still in the locking period
    assert_eq!(
        handle_unlock_nft(&state, &mut acc, &later(&env, 604_800), 1, &denom, LockingPeriod::T1),
        Err(ContractError::TimeNotOvered {})
    );

    // one second before the unlock period ends
    let before = later(&env, 604_800 + 604_800 - 1);
    handle_unlock_nft(&state, &mut acc, &before, 1, &denom, LockingPeriod::T1).unwrap();
    assert_eq!(acc.nft.clone().unwrap().vtokens[0].status, Status::Unlocking);
    assert_eq!(acc.locked, coins(0, DENOM));
    assert_eq!(acc.unlocking, coins(100, DENOM));

    // one second after
    let after = later(&env, 604_800 + 604_800 + 1);
    handle_unlock_nft(&state, &mut acc, &after, 1, &denom, LockingPeriod::T1).unwrap();
    assert_eq!(acc.nft.clone().unwrap().vtokens[0].status, Status::Unlocked);
    assert_eq!(acc.unlocking, coins(0, DENOM));
    assert_eq!(acc.unlocked, coins(100, DENOM));

    assert_eq!(
        handle_unlock_nft(&state, &mut acc, &after, 1, &denom, LockingPeriod::T1),
        Err(ContractError::AllreadyUnLocked {})
    );
}

#[test]
fn relock_after_unlocking_fails() {
    let env = mock_block();
    let mut state = instantiate(init_msg());
    let mut acc = account("owner");
    let mut supply = TokenSupply { token: 0, vtoken: 0 };
    handle_lock_nft(&mut state, &mut acc, &mut supply, &env, &coins(100, DENOM), 1, LockingPeriod::T1)
        .unwrap();
    let t = later(&env, 604_801);
    handle_unlock_nft(&state, &mut acc, &t, 1, &DENOM.to_string(), LockingPeriod::T1).unwrap();
    let before = acc.clone();
    assert_eq!(
        handle_lock_nft(&mut state, &mut acc, &mut supply, &t, &coins(5, DENOM), 1, LockingPeriod::T1),
        Err(ContractError::NotLocked {})
    );
    assert_eq!(acc, before);
    // another tier is a new record
    handle_lock_nft(&mut state, &mut acc, &mut supply, &t, &coins(5, DENOM), 1, LockingPeriod::T2)
        .unwrap();
    assert_eq!(acc.nft.clone().unwrap().vtokens.len(), 2);
}

#[test]
fn lock_rejects_several_denominations_and_no_funds() {
    let env = mock_block();
    let mut state = instantiate(init_msg());
    let mut acc = account("owner");
    let mut supply = TokenSupply { token: 0, vtoken: 0 };
    let two = vec![
        Coin { denom: "A".to_string(), amount: 1 },
        Coin { denom: "B".to_string(), amount: 1 },
    ];
    assert_eq!(
        handle_lock_nft(&mut state, &mut acc, &mut supply, &env, &two, 1, LockingPeriod::T1),
        Err(ContractError::MultipleDenominations {})
    );
    assert_eq!(
        handle_lock_nft(&mut state, &mut acc, &mut supply, &env, &vec![], 1, LockingPeriod::T1),
        Err(ContractError::InsufficientFunds { funds: 0 })
    );
    assert_eq!(acc.nft, None);
}

#[test]
fn lock_overflowing_principal_fails() {
    let env = mock_block();
    let mut state = instantiate(init_msg());
    let mut acc = account("owner");
    let mut supply = TokenSupply { token: 0, vtoken: 0 };
    handle_lock_nft(&mut state, &mut acc, &mut supply, &env, &coins(u128::MAX, DENOM), 1, LockingPeriod::T4)
        .unwrap();
    assert_eq!(
        handle_lock_nft(&mut state, &mut acc, &mut supply, &env, &coins(1, DENOM), 1, LockingPeriod::T4),
        Err(ContractError::Overflow {})
    );
}

#[test]
fn withdraw_errors() {
    let env = mock_block();
    let mut state = instantiate(init_msg());
    let mut acc = account("owner");
    let mut supply = TokenSupply { token: 0, vtoken: 0 };
    let denom = DENOM.to_string();
    assert_eq!(withdraw(&mut acc, &env, &denom, 1, LockingPeriod::T1), Err(ContractError::NotFound {}));
    handle_lock_nft(&mut state, &mut acc, &mut supply, &env, &coins(100, DENOM), 1, LockingPeriod::T1)
        .unwrap();
    assert_eq!(withdraw(&mut acc, &env, &denom, 1, LockingPeriod::T1), Err(ContractError::NotUnlocked {}));
    let after = later(&env, 2 * 604_800 + 1);
    handle_unlock_nft(&state, &mut acc, &after, 1, &denom, LockingPeriod::T1).unwrap();
    assert_eq!(
        withdraw(&mut acc, &after, &denom, 101, LockingPeriod::T1),
        Err(ContractError::InsufficientFunds { funds: 100 })
    );
    assert_eq!(
        handle_unlock_nft(&state, &mut acc, &after, 1, &"OTHER".to_string(), LockingPeriod::T1),
        Err(ContractError::NotFound {})
    );
}

#[test]
fn issued_nft_query() {
    let env = mock_block();
    let mut state = instantiate(init_msg());
    let mut acc = account("owner");
    let mut supply = TokenSupply { token: 0, vtoken: 0 };
    assert_eq!(query_issued_nft(&acc), Err(ContractError::NotFound {}));
    handle_lock_nft(&mut state, &mut acc, &mut supply, &env, &coins(100, DENOM), 1, LockingPeriod::T3)
        .unwrap();
    let nft = query_issued_nft(&acc).unwrap().nft;
    assert_eq!(nft.vtokens[0].vtoken.amount, 75);
    assert_eq!(get_period(&state, LockingPeriod::T3).period, 1_814_400);
    let fresh: State = instantiate(init_msg());
    assert_eq!(fresh.num_tokens, 0);
}
