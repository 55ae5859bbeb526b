use governance::locker::{Account, ContractError};
use governance::locker_query::{
    query_issued_vtokens, query_locked_tokens, query_unlocked_tokens, query_unlocking_tokens,
};
use governance::types::Coin;

const DENOM: &str = "TKN";

fn account(owner: &str) -> Account {
    Account {
        owner: owner.to_string(),
        nft: None,
        locked: vec![],
        unlocking: vec![],
        unlocked: vec![],
    }
}

#[test]
fn unlocked_tokens() {
    let mut acc = account("owner");
    acc.unlocked = vec![
        Coin { amount: 1000, denom: "DNM1".to_string() },
        Coin { amount: 2000, denom: "DNM2".to_string() },
    ];

    // Query unlocked tokens for specific denom
    let res = query_unlocked_tokens(&acc, Some("DNM1".to_string())).unwrap();
    assert_eq!(res.tokens.len(), 1);
    assert_eq!(res.tokens[0].amount, 1000);
    assert_eq!(res.tokens[0].denom, "DNM1".to_string());

    // Query all tokens
    let res = query_unlocked_tokens(&acc, None).unwrap();
    assert_eq!(res.tokens.len(), 2);
    assert_eq!(res.tokens[0].denom, "DNM1".to_string());
    assert_eq!(res.tokens[0].amount, 1000u128);
    assert_eq!(res.tokens[1].denom, "DNM2".to_string());
    assert_eq!(res.tokens[1].amount, 2000u128);
}

#[test]
fn unlocking_tokens() {
    let mut acc = account("owner");
    acc.unlocking = vec![Coin { denom: DENOM.to_string(), amount: 100 }];
    assert_eq!(acc.unlocking.len(), 1);
    assert_eq!(acc.unlocking[0].amount, 100u128);
    assert_eq!(acc.unlocking[0].denom, DENOM.to_string());

    let res = query_unlocking_tokens(&acc, Some(DENOM.to_string())).unwrap();
    assert_eq!(res.tokens.len(), 1);
    assert_eq!(res.tokens[0].amount, 100u128);
    assert_eq!(res.tokens[0].denom, DENOM.to_string());

    // Save another token denom
    acc.unlocking.push(Coin { denom: "DNM1".to_string(), amount: 100 });
    assert_eq!(acc.unlocking.len(), 2);
    assert_eq!(acc.unlocking[0].amount, 100u128);
    assert_eq!(acc.unlocking[0].denom, DENOM.to_string());
    assert_eq!(acc.unlocking[1].amount, 100u128);
    assert_eq!(acc.unlocking[1].denom, "DNM1".to_string());

    // Query with specific denom
    let res = query_unlocking_tokens(&acc, Some(DENOM.to_string())).unwrap();
    assert_eq!(res.tokens.len(), 1);
    assert_eq!(res.tokens[0].amount, 100u128);
    assert_eq!(res.tokens[0].denom, DENOM.to_string());

    // Query without a specific denom
    let res = query_unlocking_tokens(&acc, None).unwrap();
    assert_eq!(res.tokens.len(), 2);
    assert_eq!(res.tokens[0].amount, 100u128);
    assert_eq!(res.tokens[0].denom, DENOM.to_string());
    assert_eq!(res.tokens[1].amount, 100u128);
    assert_eq!(res.tokens[1].denom, "DNM1".to_string());
}

#[test]
fn locked_tokens() {
    let mut acc = account("owner");
    acc.locked = vec![Coin { denom: "DNM1".to_string(), amount: 1000 }];

    let res = query_locked_tokens(&acc, Some("DNM1".into())).unwrap();
    assert_eq!(res.tokens.len(), 1);
    assert_eq!(res.tokens[0].amount, 1000);
    assert_eq!(res.tokens[0].denom, "DNM1".to_string());
}

#[test]
fn queries_on_nothing_held() {
    let acc = account("owner");
    assert_eq!(query_locked_tokens(&acc, Some("X".to_string())), Err(ContractError::NotFound {}));
    assert_eq!(query_locked_tokens(&acc, None).unwrap().tokens, vec![]);
    assert_eq!(query_issued_vtokens(&acc), Err(ContractError::NotFound {}));
}
