//! Read-only views of what the locking engine holds for an owner.

use vstd::prelude::*;
use crate::locker::{Account, ContractError, TokenInfo, Vtoken};
use crate::types::{duplicate_coins, Coin};

verus! {

#[derive(Clone, Debug, PartialEq, Eq)]
pub struct IssuedNftResponse {
    pub nft: TokenInfo,
}

#[derive(Clone, Debug, PartialEq, Eq)]
pub struct UnlockedTokensResponse {
    pub tokens: Vec<Coin>,
}

#[derive(Clone, Debug, PartialEq, Eq)]
pub struct UnlockingTokensResponse {
    pub tokens: Vec<Coin>,
}

#[derive(Clone, Debug, PartialEq, Eq)]
pub struct LockedTokensResponse {
    pub tokens: Vec<Coin>,
}

#[derive(Clone, Debug, PartialEq, Eq)]
pub struct IssuedVtokensResponse {
    pub vtokens: Vec<Vtoken>,
}

/// The balances of `denom` in `coins`, in their order.
pub open spec fn coins_matching(coins: Seq<Coin>, denom: Seq<char>) -> Seq<Coin>
    decreases coins.len(),
{
    if coins.len() == 0 {
        Seq::empty()
    } else if coins.last().denom@ == denom {
        coins_matching(coins.drop_last(), denom).push(coins.last())
    } else {
        coins_matching(coins.drop_last(), denom)
    }
}

/// What a balance query answers: every balance where no denomination is
/// named, else those of the named one, and `NotFound` where there are none.
pub open spec fn selection(coins: Seq<Coin>, denom: Option<String>) -> Result<Seq<Coin>, ContractError> {
    match denom {
        None => Ok(coins),
        Some(d) => if coins_matching(coins, d@).len() == 0 {
            Err(ContractError::NotFound {  })
        } else {
            Ok(coins_matching(coins, d@))
        },
    }
}

fn select_coins(coins: &Vec<Coin>, denom: &Option<String>) -> (r: Result<Vec<Coin>, ContractError>)
    ensures
        match (r, selection(coins@, *denom)) {
            (Ok(v), Ok(s)) => v@ == s,
            (Err(e), Err(f)) => e == f,
            _ => false,
        },
{
    match denom {
        None => Ok(duplicate_coins(coins)),
        Some(d) => {
            let mut picked: Vec<Coin> = Vec::new();
            let mut i: usize = 0;
            while i < coins.len()
                invariant
                    i <= coins@.len(),
                    picked@ == coins_matching(coins@.subrange(0, i as int), d@),
                decreases coins@.len() - i,
            {
                assert(coins@.subrange(0, i as int + 1).drop_last() =~= coins@.subrange(
                    0,
                    i as int,
                ));
                if coins[i].denom == *d {
                    picked.push(coins[i].duplicate());
                }
                i = i + 1;
            }
            assert(coins@.subrange(0, coins@.len() as int) =~= coins@);
            if picked.len() == 0 {
                Err(ContractError::NotFound {  })
            } else {
                Ok(picked)
            }
        },
    }
}

/// The owner's balances that are still locked.
pub fn query_locked_tokens(account: &Account, denom: Option<String>) -> (r: Result<
    LockedTokensResponse,
    ContractError,
>)
    ensures
        match (r, selection(account.locked@, denom)) {
            (Ok(v), Ok(s)) => v.tokens@ == s,
            (Err(e), Err(f)) => e == f,
            _ => false,
        },
{
    match select_coins(&account.locked, &denom) {
        Ok(tokens) => Ok(LockedTokensResponse { tokens }),
        Err(e) => Err(e),
    }
}

/// The owner's balances in their unlock period.
pub fn query_unlocking_tokens(account: &Account, denom: Option<String>) -> (r: Result<
    UnlockingTokensResponse,
    ContractError,
>)
    ensures
        match (r, selection(account.unlocking@, denom)) {
            (Ok(v), Ok(s)) => v.tokens@ == s,
            (Err(e), Err(f)) => e == f,
            _ => false,
        },
{
    match select_coins(&account.unlocking, &denom) {
        Ok(tokens) => Ok(UnlockingTokensResponse { tokens }),
        Err(e) => Err(e),
    }
}

/// The owner's balances that may be withdrawn.
pub fn query_unlocked_tokens(account: &Account, denom: Option<String>) -> (r: Result<
    UnlockedTokensResponse,
    ContractError,
>)
    ensures
        match (r, selection(account.unlocked@, denom)) {
            (Ok(v), Ok(s)) => v.tokens@ == s,
            (Err(e), Err(f)) => e == f,
            _ => false,
        },
{
    match select_coins(&account.unlocked, &denom) {
        Ok(tokens) => Ok(UnlockedTokensResponse { tokens }),
        Err(e) => Err(e),
    }
}

fn duplicate_vtokens(vtokens: &Vec<Vtoken>) -> (r: Vec<Vtoken>)
    ensures
        r@ == vtokens@,
{
    let mut r: Vec<Vtoken> = Vec::new();
    let mut i: usize = 0;
    while i < vtokens.len()
        invariant
            i <= vtokens@.len(),
            r@ == vtokens@.subrange(0, i as int),
        decreases vtokens@.len() - i,
    {
        r.push(vtokens[i].duplicate());
        i = i + 1;
        assert(r@ =~= vtokens@.subrange(0, i as int));
    }
    assert(r@ =~= vtokens@);
    r
}

/// The owner's record of locked tokens; `NotFound` before the first lock.
pub fn query_issued_nft(account: &Account) -> (r: Result<IssuedNftResponse, ContractError>)
    ensures
        match account.nft {
            Some(n) => r is Ok && r->Ok_0.nft.owner == n.owner && r->Ok_0.nft.token_id
                == n.token_id && r->Ok_0.nft.vtokens@ == n.vtokens@,
            None => r == Err::<IssuedNftResponse, ContractError>(ContractError::NotFound {  }),
        },
{
    match &account.nft {
        Some(n) => Ok(
            IssuedNftResponse {
                nft: TokenInfo {
                    owner: n.owner.clone(),
                    vtokens: duplicate_vtokens(&n.vtokens),
                    token_id: n.token_id,
                },
            },
        ),
        None => Err(ContractError::NotFound {  }),
    }
}

/// Every record of voting tokens issued to the owner; `NotFound` before the
/// first lock.
pub fn query_issued_vtokens(account: &Account) -> (r: Result<IssuedVtokensResponse, ContractError>)
    ensures
        match account.nft {
            Some(n) => r is Ok && r->Ok_0.vtokens@ == n.vtokens@,
            None => r == Err::<IssuedVtokensResponse, ContractError>(ContractError::NotFound {  }),
        },
{
    match &account.nft {
        Some(n) => Ok(IssuedVtokensResponse { vtokens: duplicate_vtokens(&n.vtokens) }),
        None => Err(ContractError::NotFound {  }),
    }
}

} // verus!
