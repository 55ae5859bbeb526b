//! The locking engine: deposits locked for one of four tiers, converted by
//! the tier's weight into voting tokens, and released through a cooldown.

use vstd::prelude::*;
use crate::decimal::{mul_floor, weighted_amount, Decimal};
use crate::keyed::{
    last_index, lemma_last_index_bounds, lemma_last_index_push, lemma_last_index_update,
};
use crate::types::{attribute, Attribute, BankMsg, BlockInfo, Coin, CosmosMsg, Response, Timestamp};

verus! {

/// A locking tier's duration in seconds and its conversion weight.
#[derive(Clone, Copy, Debug, PartialEq, Eq, Structural)]
pub struct PeriodWeight {
    pub period: u64,
    pub weight: Decimal,
}

/// One of the four locking tiers.
#[derive(Clone, Copy, Debug, PartialEq, Eq, Structural)]
pub enum LockingPeriod {
    T1,
    T2,
    T3,
    T4,
}

/// The four vesting tiers.
#[derive(Clone, Copy, Debug, PartialEq, Eq, Structural)]
pub enum VestingPeriod {
    T1,
    T2,
    T3,
    T4,
}

/// Where locked tokens are in their release.
#[derive(Clone, Copy, Debug, PartialEq, Eq, Structural)]
pub enum Status {
    /// The tokens are in their locking period.
    Locked,
    /// The locking period is over, the unlock period is not.
    Unlocking,
    /// Both periods are over: the owner may withdraw.
    Unlocked,
}

/// The kind of call a lock message makes.
#[derive(Clone, Copy, Debug, PartialEq, Eq, Structural)]
pub enum CallType {
    Lock,
    Deposit,
    UpdateAmount,
    UpdateLokingPeriod,
}

/// Locked principal of one denomination under one tier, and the voting
/// tokens issued for it.
#[derive(Clone, Debug, PartialEq, Eq)]
pub struct Vtoken {
    /// amount of token being locked
    pub token: Coin,
    /// amount of vtoken created
    pub vtoken: Coin,
    pub period: LockingPeriod,
    /// when the tokens were last locked
    pub start_time: Timestamp,
    /// after this point the tokens can be unlocked
    pub end_time: Timestamp,
    pub status: Status,
}

/// The record of everything one owner has locked.
#[derive(Clone, Debug, PartialEq, Eq)]
pub struct TokenInfo {
    pub owner: String,
    pub vtokens: Vec<Vtoken>,
    pub token_id: u64,
}

/// The tiers, the unlock period, and the count of records issued.
#[derive(Clone, Copy, Debug, PartialEq, Eq, Structural)]
pub struct State {
    pub t1: PeriodWeight,
    pub t2: PeriodWeight,
    pub t3: PeriodWeight,
    pub t4: PeriodWeight,
    pub unlock_period: u64,
    pub num_tokens: u64,
}

/// The settings the engine starts with.
#[derive(Clone, Copy, Debug, PartialEq, Eq, Structural)]
pub struct InstantiateMsg {
    pub t1: PeriodWeight,
    pub t2: PeriodWeight,
    pub t3: PeriodWeight,
    pub t4: PeriodWeight,
    pub unlock_period: u64,
}

/// The operations of the locking engine.
#[derive(Clone, Debug, PartialEq, Eq)]
pub enum ExecuteMsg {
    /// Lock the coin sent for the given tier.
    Lock { app_id: u64, locking_period: LockingPeriod, calltype: CallType },
    /// Move the record of a denomination and tier on in its release.
    Unlock { app_id: u64, denom: String, locking_period: LockingPeriod },
    /// Pay out part of an unlocked record.
    Withdraw { app_id: u64, denom: String, amount: u128, locking_period: LockingPeriod },
}

/// The queries of the locking engine; without an address they concern the
/// caller, without a denomination every balance.
#[derive(Clone, Debug, PartialEq, Eq)]
pub enum QueryMsg {
    IssuedNft { address: String },
    UnlockedTokens { address: Option<String>, denom: Option<String> },
    UnlockingTokens { address: Option<String>, denom: Option<String> },
    LockedTokens { address: Option<String>, denom: Option<String> },
    IssuedVtokens { address: Option<String> },
}

/// Running totals of one denomination: principal locked and voting tokens
/// issued.
#[derive(Clone, Copy, Debug, PartialEq, Eq, Structural)]
pub struct TokenSupply {
    pub token: u128,
    pub vtoken: u128,
}

/// What the engine holds for one owner: the record of locked tokens, and the
/// owner's balances in each stage of release.
#[derive(Clone, Debug, PartialEq, Eq)]
pub struct Account {
    pub owner: String,
    pub nft: Option<TokenInfo>,
    pub locked: Vec<Coin>,
    pub unlocking: Vec<Coin>,
    pub unlocked: Vec<Coin>,
}

/// Why an operation of the locking engine failed.
#[derive(Clone, Debug, PartialEq, Eq)]
pub enum ContractError {
    NotFound {},
    Unauthorized {},
    InsufficientFunds { funds: u128 },
    MultipleDenominations {},
    TimeNotOvered {},
    AllreadyUnLocked {},
    NotUnlocked {},
    NotLocked {},
    CustomError { val: String },
    /// A balance holds less than the record it should reflect.
    BalanceMismatch {},
    Overflow {},
}

/// Matches the record of `denom` under `period`.
pub open spec fn same_key(denom: Seq<char>, period: LockingPeriod) -> spec_fn(Vtoken) -> bool {
    |v: Vtoken| v.token.denom@ == denom && v.period == period
}

/// Matches a balance of `denom`.
pub open spec fn has_denom(denom: Seq<char>) -> spec_fn(Coin) -> bool {
    |c: Coin| c.denom@ == denom
}

/// The amount of `denom` in a list of balances.
pub open spec fn balance_of(coins: Seq<Coin>, denom: Seq<char>) -> int {
    let i = last_index(coins, has_denom(denom));
    if i >= 0 {
        coins[i].amount as int
    } else {
        0
    }
}

/// The denomination of the voting tokens issued for `denom`.
pub open spec fn vdenom(denom: Seq<char>) -> Seq<char> {
    seq!['v'] + denom
}

/// The tier settings that `period` selects.
pub open spec fn tier(state: State, period: LockingPeriod) -> PeriodWeight {
    match period {
        LockingPeriod::T1 => state.t1,
        LockingPeriod::T2 => state.t2,
        LockingPeriod::T3 => state.t3,
        LockingPeriod::T4 => state.t4,
    }
}

/// The records of an account.
pub open spec fn records(account: Account) -> Seq<Vtoken> {
    match account.nft {
        Some(n) => n.vtokens@,
        None => Seq::empty(),
    }
}

/// Where the account's record of `denom` under `period` stands, or `-1`.
pub open spec fn record_index(account: Account, denom: Seq<char>, period: LockingPeriod) -> int {
    last_index(records(account), same_key(denom, period))
}

/// The settings the engine starts with, and no record issued yet.
pub fn instantiate(msg: InstantiateMsg) -> (r: State)
    ensures
        r == (State {
            t1: msg.t1,
            t2: msg.t2,
            t3: msg.t3,
            t4: msg.t4,
            unlock_period: msg.unlock_period,
            num_tokens: 0,
        }),
{
    State {
        t1: msg.t1,
        t2: msg.t2,
        t3: msg.t3,
        t4: msg.t4,
        unlock_period: msg.unlock_period,
        num_tokens: 0,
    }
}

/// The tier settings that `locking_period` selects.
pub fn get_period(state: &State, locking_period: LockingPeriod) -> (r: PeriodWeight)
    ensures
        r == tier(*state, locking_period),
{
    match locking_period {
        LockingPeriod::T1 => state.t1,
        LockingPeriod::T2 => state.t2,
        LockingPeriod::T3 => state.t3,
        LockingPeriod::T4 => state.t4,
    }
}

/// The denomination of the voting tokens issued for `denom`: `"v" + denom`.
pub fn vdenom_of(denom: &String) -> (r: String)
    ensures
        r@ == vdenom(denom@),
{
    let mut r = String::from_str("v");
    proof {
        reveal_strlit("v");
    }
    r.append(denom.as_str());
    r
}

impl Vtoken {
    /// This record with another status.
    pub fn with_status(&self, status: Status) -> (r: Vtoken)
        ensures
            r == (Vtoken { status, ..*self }),
    {
        Vtoken {
            token: self.token.duplicate(),
            vtoken: self.vtoken.duplicate(),
            period: self.period,
            start_time: self.start_time,
            end_time: self.end_time,
            status,
        }
    }

    /// This record with another principal.
    pub fn with_principal(&self, amount: u128) -> (r: Vtoken)
        ensures
            r == (Vtoken { token: Coin { amount, ..self.token }, ..*self }),
    {
        Vtoken {
            token: Coin { denom: self.token.denom.clone(), amount },
            vtoken: self.vtoken.duplicate(),
            period: self.period,
            start_time: self.start_time,
            end_time: self.end_time,
            status: self.status,
        }
    }

    /// A copy of this record.
    pub fn duplicate(&self) -> (r: Vtoken)
        ensures
            r == *self,
    {
        self.with_status(self.status)
    }
}

/// The position of the record of `denom` under `period`.
pub fn find_vtoken(vtokens: &Vec<Vtoken>, denom: &String, period: LockingPeriod) -> (r: Option<usize>)
    ensures
        match r {
            Some(i) => i as int == last_index(vtokens@, same_key(denom@, period)),
            None => last_index(vtokens@, same_key(denom@, period)) == -1,
        },
{
    let ghost f = same_key(denom@, period);
    let mut found: Option<usize> = None;
    let mut i: usize = 0;
    while i < vtokens.len()
        invariant
            i <= vtokens@.len(),
            f == same_key(denom@, period),
            match found {
                Some(j) => j as int == last_index(vtokens@.subrange(0, i as int), f),
                None => last_index(vtokens@.subrange(0, i as int), f) == -1,
            },
        decreases vtokens@.len() - i,
    {
        proof {
            assert(vtokens@.subrange(0, i as int + 1) =~= vtokens@.subrange(0, i as int).push(
                vtokens@[i as int],
            ));
            lemma_last_index_push(vtokens@.subrange(0, i as int), vtokens@[i as int], f);
        }
        if vtokens[i].token.denom == *denom && vtokens[i].period == period {
            found = Some(i);
        }
        i = i + 1;
    }
    assert(vtokens@.subrange(0, vtokens@.len() as int) =~= vtokens@);
    found
}

/// The position of the balance of `denom`.
pub fn find_coin(coins: &Vec<Coin>, denom: &String) -> (r: Option<usize>)
    ensures
        match r {
            Some(i) => i as int == last_index(coins@, has_denom(denom@)),
            None => last_index(coins@, has_denom(denom@)) == -1,
        },
{
    let ghost f = has_denom(denom@);
    let mut found: Option<usize> = None;
    let mut i: usize = 0;
    while i < coins.len()
        invariant
            i <= coins@.len(),
            f == has_denom(denom@),
            match found {
                Some(j) => j as int == last_index(coins@.subrange(0, i as int), f),
                None => last_index(coins@.subrange(0, i as int), f) == -1,
            },
        decreases coins@.len() - i,
    {
        proof {
            assert(coins@.subrange(0, i as int + 1) =~= coins@.subrange(0, i as int).push(
                coins@[i as int],
            ));
            lemma_last_index_push(coins@.subrange(0, i as int), coins@[i as int], f);
        }
        if coins[i].denom == *denom {
            found = Some(i);
        }
        i = i + 1;
    }
    assert(coins@.subrange(0, coins@.len() as int) =~= coins@);
    found
}

/// The amount of `denom` in a list of balances.
pub fn balance_amount(coins: &Vec<Coin>, denom: &String) -> (r: u128)
    ensures
        r == balance_of(coins@, denom@),
{
    proof {
        lemma_last_index_bounds(coins@, has_denom(denom@));
    }
    match find_coin(coins, denom) {
        Some(i) => coins[i].amount,
        None => 0,
    }
}

/// Adds `amount` to the balance of `denom`, opening one where there is none.
/// The caller has checked that the sum fits.
pub fn add_balance(coins: &mut Vec<Coin>, denom: &String, amount: u128)
    requires
        balance_of(old(coins)@, denom@) + amount <= u128::MAX,
    ensures
        balance_of(final(coins)@, denom@) == balance_of(old(coins)@, denom@) + amount,
        forall|d: Seq<char>|
            d != denom@ ==> balance_of(final(coins)@, d) == #[trigger] balance_of(old(coins)@, d),
{
    let ghost before = coins@;
    proof {
        lemma_last_index_bounds(before, has_denom(denom@));
    }
    match find_coin(coins, denom) {
        Some(i) => {
            let c = Coin { denom: coins[i].denom.clone(), amount: coins[i].amount + amount };
            coins.set(i, c);
            proof {
                lemma_last_index_update(before, i as int, c, has_denom(denom@));
                assert forall|d: Seq<char>| d != denom@ implies balance_of(coins@, d)
                    == #[trigger] balance_of(before, d) by {
                    lemma_last_index_update(before, i as int, c, has_denom(d));
                    lemma_last_index_bounds(before, has_denom(d));
                }
            }
        },
        None => {
            let c = Coin { denom: denom.clone(), amount };
            coins.push(c);
            proof {
                lemma_last_index_push(before, c, has_denom(denom@));
                assert forall|d: Seq<char>| d != denom@ implies balance_of(coins@, d)
                    == #[trigger] balance_of(before, d) by {
                    lemma_last_index_push(before, c, has_denom(d));
                    lemma_last_index_bounds(before, has_denom(d));
                }
            }
        },
    }
}

/// Takes `amount` off the balance of `denom`. The caller has checked that
/// the balance holds it.
pub fn sub_balance(coins: &mut Vec<Coin>, denom: &String, amount: u128)
    requires
        balance_of(old(coins)@, denom@) >= amount,
    ensures
        balance_of(final(coins)@, denom@) == balance_of(old(coins)@, denom@) - amount,
        forall|d: Seq<char>|
            d != denom@ ==> balance_of(final(coins)@, d) == #[trigger] balance_of(old(coins)@, d),
{
    let ghost before = coins@;
    proof {
        lemma_last_index_bounds(before, has_denom(denom@));
    }
    match find_coin(coins, denom) {
        Some(i) => {
            let c = Coin { denom: coins[i].denom.clone(), amount: coins[i].amount - amount };
            coins.set(i, c);
            proof {
                lemma_last_index_update(before, i as int, c, has_denom(denom@));
                assert forall|d: Seq<char>| d != denom@ implies balance_of(coins@, d)
                    == #[trigger] balance_of(before, d) by {
                    lemma_last_index_update(before, i as int, c, has_denom(d));
                    lemma_last_index_bounds(before, has_denom(d));
                }
            }
        },
        None => {},
    }
}

/// The principal already locked under the key, or zero.
pub open spec fn locked_principal(account: Account, denom: Seq<char>, period: LockingPeriod) -> int {
    principal_in(records(account), denom, period)
}

/// The voting tokens already issued under the key, or zero.
pub open spec fn issued_vtokens(account: Account, denom: Seq<char>, period: LockingPeriod) -> int {
    let i = record_index(account, denom, period);
    if i >= 0 {
        records(account)[i].vtoken.amount as int
    } else {
        0
    }
}

/// `weight * amount`, rounded down, as an integer; the caller has checked
/// that it fits.
pub open spec fn converted(weight: Decimal, amount: int) -> int {
    weighted_amount(weight, amount as u128)->Some_0 as int
}

/// Some sum that a lock of `amount` would make does not fit its type.
pub open spec fn lock_overflows(
    state: State,
    account: Account,
    supply: TokenSupply,
    now: Timestamp,
    denom: Seq<char>,
    amount: u128,
    period: LockingPeriod,
) -> bool {
    let pw = tier(state, period);
    let total = locked_principal(account, denom, period) + amount;
    let old_v = issued_vtokens(account, denom, period);
    ||| total > u128::MAX
    ||| weighted_amount(pw.weight, total as u128) is None
    ||| now.nanos + pw.period * 1_000_000_000 > u64::MAX
    ||| supply.token + amount > u128::MAX
    ||| supply.vtoken + (if converted(pw.weight, total) >= old_v {
        converted(pw.weight, total) - old_v
    } else {
        0
    }) > u128::MAX
    ||| balance_of(account.locked@, denom) + amount > u128::MAX
    ||| (account.nft is None && state.num_tokens == u64::MAX)
}

/// Why a lock of `funds` fails, if it does.
pub open spec fn lock_failure(
    state: State,
    account: Account,
    supply: TokenSupply,
    now: Timestamp,
    funds: Seq<Coin>,
    period: LockingPeriod,
) -> Option<ContractError> {
    if funds.len() == 0 {
        Some(ContractError::InsufficientFunds { funds: 0 })
    } else if funds.len() > 1 {
        Some(ContractError::MultipleDenominations {  })
    } else if funds[0].amount == 0 {
        Some(ContractError::InsufficientFunds { funds: 0 })
    } else if record_index(account, funds[0].denom@, period) >= 0 && records(account)[record_index(
        account,
        funds[0].denom@,
        period,
    )].status != Status::Locked {
        Some(ContractError::NotLocked {  })
    } else if lock_overflows(state, account, supply, now, funds[0].denom@, funds[0].amount, period) {
        Some(ContractError::Overflow {  })
    } else {
        None
    }
}

proof fn lemma_keys_stay_unique(
    before: Seq<Vtoken>,
    after: Seq<Vtoken>,
    rec: Vtoken,
    found: Option<usize>,
)
    requires
        match found {
            Some(i) => i < before.len() && after == before.update(i as int, rec)
                && before[i as int].token.denom@ == rec.token.denom@ && before[i as int].period
                == rec.period,
            None => after == before.push(rec) && last_index(
                before,
                same_key(rec.token.denom@, rec.period),
            ) == -1,
        },
    ensures
        keys_unique(before) ==> keys_unique(after),
{
    if keys_unique(before) {
        match found {
            Some(i) => {
                assert forall|a: int, b: int| 0 <= a < b < after.len() implies !(
                #[trigger] after[a].token.denom@ == #[trigger] after[b].token.denom@
                    && after[a].period == after[b].period) by {
                    assert(after[a].token.denom@ == before[a].token.denom@ && after[a].period
                        == before[a].period);
                    assert(after[b].token.denom@ == before[b].token.denom@ && after[b].period
                        == before[b].period);
                }
            },
            None => {
                lemma_last_index_bounds(before, same_key(rec.token.denom@, rec.period));
                assert forall|a: int, b: int| 0 <= a < b < after.len() implies !(
                #[trigger] after[a].token.denom@ == #[trigger] after[b].token.denom@
                    && after[a].period == after[b].period) by {
                    if b == before.len() {
                        assert(after[b] == rec);
                        assert(after[a] == before[a]);
                        assert(!same_key(rec.token.denom@, rec.period)(before[a]));
                    } else {
                        assert(after[a] == before[a] && after[b] == before[b]);
                    }
                }
            },
        }
    }
}

/// Locking again into a record that is still locked succeeds wherever no
/// sum overflows; the contract of `handle_lock_nft` then gives the grown
/// principal, the restarted clock and the Locked status.
pub proof fn lemma_relock_succeeds(
    state: State,
    account: Account,
    supply: TokenSupply,
    now: Timestamp,
    funds: Seq<Coin>,
    period: LockingPeriod,
)
    requires
        funds.len() == 1,
        funds[0].amount > 0,
        record_index(account, funds[0].denom@, period) >= 0,
        records(account)[record_index(account, funds[0].denom@, period)].status == Status::Locked,
        !lock_overflows(state, account, supply, now, funds[0].denom@, funds[0].amount, period),
    ensures
        lock_failure(state, account, supply, now, funds, period) is None,
{
}

/// Locks the one coin sent under `locking_period` and issues voting tokens
/// for it.
///
/// Locking again under a tier that already holds this denomination adds to
/// its principal, converts the whole principal anew, and restarts the clock
/// of the whole balance; a record that has begun to unlock takes no more.
pub fn handle_lock_nft(
    state: &mut State,
    account: &mut Account,
    supply: &mut TokenSupply,
    block: &BlockInfo,
    funds: &Vec<Coin>,
    app_id: u64,
    locking_period: LockingPeriod,
) -> (r: Result<Response, ContractError>)
    ensures
        r is Err <==> lock_failure(
            *old(state),
            *old(account),
            *old(supply),
            block.time,
            funds@,
            locking_period,
        ) is Some,
        r is Err ==> r->Err_0 == lock_failure(
            *old(state),
            *old(account),
            *old(supply),
            block.time,
            funds@,
            locking_period,
        )->Some_0 && *final(state) == *old(state) && *final(account) == *old(account)
            && *final(supply) == *old(supply),
        r is Ok ==> {
            let denom = funds@[0].denom@;
            let amount = funds@[0].amount;
            let pw = tier(*old(state), locking_period);
            let old_index = record_index(*old(account), denom, locking_period);
            let total = locked_principal(*old(account), denom, locking_period) + amount;
            let issued = converted(pw.weight, total);
            let old_v = issued_vtokens(*old(account), denom, locking_period);
            let j = record_index(*final(account), denom, locking_period);
            let rec = records(*final(account))[j];
            &&& final(account).nft is Some
            &&& j >= 0
            &&& rec.token.denom@ == denom
            &&& rec.token.amount == total
            &&& rec.vtoken.denom@ == vdenom(denom)
            &&& rec.vtoken.amount == issued
            &&& rec.vtoken.amount == converted(pw.weight, rec.token.amount as int)
            &&& rec.period == locking_period
            &&& rec.status == Status::Locked
            &&& rec.start_time == block.time
            &&& rec.end_time.nanos == block.time.nanos + pw.period * 1_000_000_000
            &&& rec.token.amount >= locked_principal(*old(account), denom, locking_period)
            &&& if old_index >= 0 {
                records(*final(account)) == records(*old(account)).update(old_index, rec)
            } else {
                records(*final(account)) == records(*old(account)).push(rec)
            }
            &&& match old(account).nft {
                Some(n) => final(account).nft->Some_0.owner == n.owner
                    && final(account).nft->Some_0.token_id == n.token_id && *final(state)
                    == *old(state),
                None => final(account).nft->Some_0.owner == old(account).owner
                    && final(state).num_tokens == old(state).num_tokens + 1
                    && final(account).nft->Some_0.token_id == final(state).num_tokens
                    && *final(state) == (State {
                    num_tokens: final(state).num_tokens,
                    ..*old(state)
                }),
            }
            &&& balance_of(final(account).locked@, denom) == balance_of(old(account).locked@, denom)
                + amount
            &&& forall|d: Seq<char>|
                d != denom ==> balance_of(final(account).locked@, d) == #[trigger] balance_of(
                    old(account).locked@,
                    d,
                )
            &&& final(account).owner == old(account).owner
            &&& final(account).unlocking == old(account).unlocking
            &&& final(account).unlocked == old(account).unlocked
            &&& final(supply).token == old(supply).token + amount
            &&& final(supply).vtoken == old(supply).vtoken + (if issued >= old_v {
                issued - old_v
            } else {
                0
            })
            &&& r->Ok_0.messages@.len() == 0
            &&& r->Ok_0.attributes@.len() == 2
            &&& r->Ok_0.attributes@[0].key@ == "action"@
            &&& keys_unique(records(*old(account))) ==> keys_unique(records(*final(account)))
            &&& conversion_holds(*old(state), records(*old(account))) ==> conversion_holds(
                *final(state),
                records(*final(account)),
            )
            &&& r->Ok_0.attributes@[0].value@ == "lock"@
            &&& r->Ok_0.attributes@[1].key@ == "from"@
            &&& r->Ok_0.attributes@[1].value == old(account).owner
        },
{
    if funds.len() == 0 {
        return Err(ContractError::InsufficientFunds { funds: 0 });
    } else if funds.len() > 1 {
        return Err(ContractError::MultipleDenominations {  });
    }
    let fund = &funds[0];
    if fund.amount == 0 {
        return Err(ContractError::InsufficientFunds { funds: 0 });
    }
    let ghost key = same_key(fund.denom@, locking_period);
    let pw = get_period(state, locking_period);
    let mut found: Option<usize> = None;
    let mut old_amount: u128 = 0;
    let mut old_v: u128 = 0;
    match &account.nft {
        Some(n) => {
            proof {
                lemma_last_index_bounds(n.vtokens@, key);
            }
            found = find_vtoken(&n.vtokens, &fund.denom, locking_period);
            match found {
                Some(i) => {
                    if n.vtokens[i].status != Status::Locked {
                        return Err(ContractError::NotLocked {  });
                    }
                    old_amount = n.vtokens[i].token.amount;
                    old_v = n.vtokens[i].vtoken.amount;
                },
                None => {},
            }
        },
        None => {},
    }
    if old_amount > u128::MAX - fund.amount {
        return Err(ContractError::Overflow {  });
    }
    let total = old_amount + fund.amount;
    let issued = match mul_floor(pw.weight, total) {
        Some(v) => v,
        None => {
            return Err(ContractError::Overflow {  });
        },
    };
    let added: u128 = if issued >= old_v {
        issued - old_v
    } else {
        0
    };
    let end_time = match block.time.plus_seconds(pw.period) {
        Some(t) => t,
        None => {
            return Err(ContractError::Overflow {  });
        },
    };
    if supply.token > u128::MAX - fund.amount || supply.vtoken > u128::MAX - added {
        return Err(ContractError::Overflow {  });
    }
    if balance_amount(&account.locked, &fund.denom) > u128::MAX - fund.amount {
        return Err(ContractError::Overflow {  });
    }
    if account.nft.is_none() && state.num_tokens == u64::MAX {
        return Err(ContractError::Overflow {  });
    }
    let rec = Vtoken {
        token: Coin { denom: fund.denom.clone(), amount: total },
        vtoken: Coin { denom: vdenom_of(&fund.denom), amount: issued },
        period: locking_period,
        start_time: block.time,
        end_time,
        status: Status::Locked,
    };
    let ghost old_account = *account;
    match account.nft.take() {
        Some(mut n) => {
            let ghost before = n.vtokens@;
            match found {
                Some(i) => {
                    n.vtokens.set(i, rec);
                    proof {
                        lemma_last_index_update(before, i as int, rec, key);
                    }
                },
                None => {
                    n.vtokens.push(rec);
                    proof {
                        lemma_last_index_push(before, rec, key);
                    }
                },
            }
            account.nft = Some(n);
        },
        None => {
            state.num_tokens = state.num_tokens + 1;
            let mut vtokens: Vec<Vtoken> = Vec::new();
            vtokens.push(rec);
            proof {
                lemma_last_index_push(Seq::<Vtoken>::empty(), rec, key);
                assert(Seq::<Vtoken>::empty().push(rec) == vtokens@);
            }
            account.nft = Some(
                TokenInfo { owner: account.owner.clone(), vtokens, token_id: state.num_tokens },
            );
        },
    }
    proof {
        lemma_keys_stay_unique(records(old_account), records(*account), rec, found);
    }
    add_balance(&mut account.locked, &fund.denom, fund.amount);
    supply.token = supply.token + fund.amount;
    supply.vtoken = supply.vtoken + added;
    let mut attributes: Vec<Attribute> = Vec::new();
    attributes.push(attribute("action", String::from_str("lock")));
    attributes.push(attribute("from", account.owner.clone()));
    Ok(Response { messages: Vec::new(), attributes })
}

/// The point, in nanoseconds, at which a record's unlock period ends.
pub open spec fn release_time(rec: Vtoken, state: State) -> int {
    rec.end_time.nanos + state.unlock_period * 1_000_000_000
}

/// The status an unlock at `now` moves a record to; `None` while its
/// locking period runs.
pub open spec fn unlock_target(rec: Vtoken, state: State, now: Timestamp) -> Option<Status> {
    if now.nanos <= rec.end_time.nanos {
        None
    } else if now.nanos < release_time(rec, state) {
        Some(Status::Unlocking)
    } else {
        Some(Status::Unlocked)
    }
}

/// The balance list that holds a record in `status`.
pub open spec fn stage_balances(account: Account, status: Status) -> Seq<Coin> {
    match status {
        Status::Locked => account.locked@,
        Status::Unlocking => account.unlocking@,
        Status::Unlocked => account.unlocked@,
    }
}

/// Why an unlock fails, if it does.
pub open spec fn unlock_failure(
    state: State,
    account: Account,
    now: Timestamp,
    denom: Seq<char>,
    period: LockingPeriod,
) -> Option<ContractError> {
    let i = record_index(account, denom, period);
    let rec = records(account)[i];
    if i < 0 {
        Some(ContractError::NotFound {  })
    } else if rec.status == Status::Unlocked {
        Some(ContractError::AllreadyUnLocked {  })
    } else if unlock_target(rec, state, now) is None {
        Some(ContractError::TimeNotOvered {  })
    } else if unlock_target(rec, state, now)->Some_0 == rec.status {
        None
    } else if balance_of(stage_balances(account, rec.status), denom) < rec.token.amount {
        Some(ContractError::BalanceMismatch {  })
    } else if balance_of(
        stage_balances(account, unlock_target(rec, state, now)->Some_0),
        denom,
    ) + rec.token.amount > u128::MAX {
        Some(ContractError::Overflow {  })
    } else {
        None
    }
}

/// Moves the record of `denom` under `locking_period` on in its release:
/// to Unlocking once its locking period is over, to Unlocked once the
/// unlock period after it is over too; its principal moves between the
/// owner's balances with it.
pub fn handle_unlock_nft(
    state: &State,
    account: &mut Account,
    block: &BlockInfo,
    app_id: u64,
    denom: &String,
    locking_period: LockingPeriod,
) -> (r: Result<Response, ContractError>)
    ensures
        r is Err <==> unlock_failure(*state, *old(account), block.time, denom@, locking_period) is Some,
        r is Err ==> r->Err_0 == unlock_failure(
            *state,
            *old(account),
            block.time,
            denom@,
            locking_period,
        )->Some_0 && *final(account) == *old(account),
        r is Ok ==> {
            let i = record_index(*old(account), denom@, locking_period);
            let rec = records(*old(account))[i];
            let target = unlock_target(rec, *state, block.time)->Some_0;
            let amount = rec.token.amount as int;
            let new_rec = records(*final(account))[i];
            &&& i >= 0
            &&& new_rec == (Vtoken { status: target, ..rec })
            &&& records(*final(account)) == records(*old(account)).update(i, new_rec)
            &&& record_index(*final(account), denom@, locking_period) == i
            &&& (new_rec.status == Status::Unlocked ==> block.time.nanos >= release_time(rec, *state))
            &&& (new_rec.status == Status::Unlocking ==> block.time.nanos > rec.end_time.nanos)
            &&& new_rec.status != Status::Locked
            &&& balance_of(final(account).locked@, denom@) == balance_of(old(account).locked@, denom@)
                - (if rec.status == Status::Locked {
                amount
            } else {
                0
            })
            &&& balance_of(final(account).unlocking@, denom@) == balance_of(
                old(account).unlocking@,
                denom@,
            ) + (if rec.status == Status::Locked && target == Status::Unlocking {
                amount
            } else {
                0
            }) - (if rec.status == Status::Unlocking && target == Status::Unlocked {
                amount
            } else {
                0
            })
            &&& balance_of(final(account).unlocked@, denom@) == balance_of(
                old(account).unlocked@,
                denom@,
            ) + (if target == Status::Unlocked {
                amount
            } else {
                0
            })
            &&& forall|d: Seq<char>|
                d != denom@ ==> {
                    &&& balance_of(final(account).locked@, d) == #[trigger] balance_of(
                        old(account).locked@,
                        d,
                    )
                    &&& balance_of(final(account).unlocking@, d) == balance_of(
                        old(account).unlocking@,
                        d,
                    )
                    &&& balance_of(final(account).unlocked@, d) == balance_of(
                        old(account).unlocked@,
                        d,
                    )
                }
            &&& final(account).owner == old(account).owner
            &&& final(account).nft->Some_0.owner == old(account).nft->Some_0.owner
            &&& final(account).nft->Some_0.token_id == old(account).nft->Some_0.token_id
            &&& r->Ok_0.messages@.len() == 0
            &&& r->Ok_0.attributes@.len() == 1
            &&& r->Ok_0.attributes@[0].key@ == "action"@
            &&& keys_unique(records(*old(account))) ==> keys_unique(records(*final(account)))
            &&& conversion_holds(*state, records(*old(account))) ==> conversion_holds(
                *state,
                records(*final(account)),
            )
            &&& r->Ok_0.attributes@[0].value@ == "unlock"@
        },
{
    let ghost key = same_key(denom@, locking_period);
    let (i, status, amount, end) = match &account.nft {
        Some(n) => {
            proof {
                lemma_last_index_bounds(n.vtokens@, key);
            }
            match find_vtoken(&n.vtokens, denom, locking_period) {
                Some(i) => (
                    i,
                    n.vtokens[i].status,
                    n.vtokens[i].token.amount,
                    n.vtokens[i].end_time,
                ),
                None => {
                    return Err(ContractError::NotFound {  });
                },
            }
        },
        None => {
            return Err(ContractError::NotFound {  });
        },
    };
    if status == Status::Unlocked {
        return Err(ContractError::AllreadyUnLocked {  });
    }
    if end.nanos >= block.time.nanos {
        return Err(ContractError::TimeNotOvered {  });
    }
    let release: u128 = (end.nanos as u128) + (state.unlock_period as u128) * 1_000_000_000;
    let target = if (block.time.nanos as u128) < release {
        Status::Unlocking
    } else {
        Status::Unlocked
    };
    let mut attributes: Vec<Attribute> = Vec::new();
    attributes.push(attribute("action", String::from_str("unlock")));
    if status == target {
        proof {
            let rec = records(*account)[i as int];
            assert(records(*account).update(i as int, rec) =~= records(*account));
        }
        return Ok(Response { messages: Vec::new(), attributes });
    }
    let source_amount = match status {
        Status::Locked => balance_amount(&account.locked, denom),
        _ => balance_amount(&account.unlocking, denom),
    };
    if source_amount < amount {
        return Err(ContractError::BalanceMismatch {  });
    }
    let target_amount = match target {
        Status::Unlocking => balance_amount(&account.unlocking, denom),
        _ => balance_amount(&account.unlocked, denom),
    };
    if target_amount > u128::MAX - amount {
        return Err(ContractError::Overflow {  });
    }
    match account.nft.take() {
        Some(mut n) => {
            let ghost before = n.vtokens@;
            let new_rec = n.vtokens[i].with_status(target);
            n.vtokens.set(i, new_rec);
            proof {
                lemma_last_index_update(before, i as int, new_rec, key);
                lemma_keys_stay_unique(before, n.vtokens@, new_rec, Some(i));
            }
            account.nft = Some(n);
        },
        None => {},
    }
    match status {
        Status::Locked => sub_balance(&mut account.locked, denom, amount),
        _ => sub_balance(&mut account.unlocking, denom, amount),
    }
    match target {
        Status::Unlocking => add_balance(&mut account.unlocking, denom, amount),
        _ => add_balance(&mut account.unlocked, denom, amount),
    }
    Ok(Response { messages: Vec::new(), attributes })
}

/// Every record still locked holds exactly its tier's weight of its
/// principal in voting tokens, rounded down.
pub open spec fn conversion_holds(state: State, records: Seq<Vtoken>) -> bool {
    forall|i: int|
        0 <= i < records.len() && (#[trigger] records[i]).status == Status::Locked
            ==> weighted_amount(tier(state, records[i].period).weight, records[i].token.amount)
            == Some(records[i].vtoken.amount)
}

/// `after` is what a withdrawal of `amount` from the record of `denom`
/// under `period` leaves of the records `before`: the amount comes off the
/// principal, and the record goes once nothing is left in it.
pub open spec fn withdrawn(
    before: Seq<Vtoken>,
    after: Seq<Vtoken>,
    denom: Seq<char>,
    amount: u128,
    period: LockingPeriod,
) -> bool {
    let i = last_index(before, same_key(denom, period));
    let rec = before[i];
    let remaining = rec.token.amount - amount;
    &&& i >= 0
    &&& amount <= rec.token.amount
    &&& if remaining == 0 {
        after == before.remove(i)
    } else {
        after == before.update(
            i,
            Vtoken { token: Coin { amount: remaining as u128, ..rec.token }, ..rec },
        )
    }
}

/// No two records share a denomination and a tier.
pub open spec fn keys_unique(records: Seq<Vtoken>) -> bool {
    forall|i: int, j: int|
        0 <= i < j < records.len() ==> !(#[trigger] records[i].token.denom@ == #[trigger] records[j].token.denom@
            && records[i].period == records[j].period)
}

/// The principal of the record of `denom` under `period`, or zero.
pub open spec fn principal_in(records: Seq<Vtoken>, denom: Seq<char>, period: LockingPeriod) -> int {
    let i = last_index(records, same_key(denom, period));
    if i >= 0 {
        records[i].token.amount as int
    } else {
        0
    }
}

/// The sum of a list of amounts.
pub open spec fn sum_of(amounts: Seq<u128>) -> int
    decreases amounts.len(),
{
    if amounts.len() == 0 {
        0
    } else {
        sum_of(amounts.drop_last()) + amounts.last()
    }
}

/// One withdrawal takes exactly its amount off the record's principal,
/// keeps the keys unique, and leaves no record exactly when nothing is left.
pub proof fn lemma_withdrawal_step(
    before: Seq<Vtoken>,
    after: Seq<Vtoken>,
    denom: Seq<char>,
    amount: u128,
    period: LockingPeriod,
)
    requires
        keys_unique(before),
        withdrawn(before, after, denom, amount, period),
    ensures
        keys_unique(after),
        principal_in(after, denom, period) == principal_in(before, denom, period) - amount,
        (last_index(after, same_key(denom, period)) == -1) == (principal_in(before, denom, period)
            == amount),
{
    let f = same_key(denom, period);
    let i = last_index(before, f);
    let rec = before[i];
    lemma_last_index_bounds(before, f);
    if rec.token.amount - amount == 0 {
        assert forall|k: int| 0 <= k < after.len() implies !f(#[trigger] after[k]) by {
            if k < i {
                assert(after[k] == before[k]);
                assert(!(before[k].token.denom@ == before[i].token.denom@ && before[k].period
                    == before[i].period));
            } else {
                assert(after[k] == before[k + 1]);
                assert(!(before[i].token.denom@ == before[k + 1].token.denom@ && before[i].period
                    == before[k + 1].period));
            }
        }
        lemma_last_index_bounds(after, f);
        assert forall|a: int, b: int| 0 <= a < b < after.len() implies !(
        #[trigger] after[a].token.denom@ == #[trigger] after[b].token.denom@ && after[a].period
            == after[b].period) by {
            let a0 = if a < i {
                a
            } else {
                a + 1
            };
            let b0 = if b < i {
                b
            } else {
                b + 1
            };
            assert(after[a] == before[a0] && after[b] == before[b0]);
            assert(!(before[a0].token.denom@ == before[b0].token.denom@ && before[a0].period
                == before[b0].period));
        }
    } else {
        let new_rec = Vtoken {
            token: Coin { amount: (rec.token.amount - amount) as u128, ..rec.token },
            ..rec
        };
        lemma_last_index_update(before, i, new_rec, f);
        assert forall|a: int, b: int| 0 <= a < b < after.len() implies !(
        #[trigger] after[a].token.denom@ == #[trigger] after[b].token.denom@ && after[a].period
            == after[b].period) by {
            assert(after[a].token.denom@ == before[a].token.denom@ && after[a].period
                == before[a].period);
            assert(after[b].token.denom@ == before[b].token.denom@ && after[b].period
                == before[b].period);
            assert(!(before[a].token.denom@ == before[b].token.denom@ && before[a].period
                == before[b].period));
        }
    }
}

/// Withdrawals conserve the principal: along any run of successful
/// withdrawals from one record, what was paid out plus what is left equals
/// the principal the record started with, so the payouts never exceed it;
/// and the record is gone exactly when nothing is left in it.
pub proof fn lemma_withdrawals_conserve(
    states: Seq<Seq<Vtoken>>,
    amounts: Seq<u128>,
    denom: Seq<char>,
    period: LockingPeriod,
)
    requires
        states.len() == amounts.len() + 1,
        keys_unique(states[0]),
        forall|k: int|
            0 <= k < amounts.len() ==> withdrawn(
                #[trigger] states[k],
                states[k + 1],
                denom,
                amounts[k],
                period,
            ),
    ensures
        keys_unique(states.last()),
        sum_of(amounts) + principal_in(states.last(), denom, period) == principal_in(
            states[0],
            denom,
            period,
        ),
        sum_of(amounts) <= principal_in(states[0], denom, period),
        amounts.len() > 0 ==> ((last_index(states.last(), same_key(denom, period)) == -1)
            == (principal_in(states.last(), denom, period) == 0)),
    decreases amounts.len(),
{
    if amounts.len() > 0 {
        let n = amounts.len() - 1;
        let shorter = states.drop_last();
        assert forall|k: int| 0 <= k < amounts.drop_last().len() implies withdrawn(
            #[trigger] shorter[k],
            shorter[k + 1],
            denom,
            amounts.drop_last()[k],
            period,
        ) by {
            assert(shorter[k] == states[k] && shorter[k + 1] == states[k + 1]);
            assert(withdrawn(states[k], states[k + 1], denom, amounts[k], period));
        }
        lemma_withdrawals_conserve(shorter, amounts.drop_last(), denom, period);
        assert(shorter.last() == states[n]);
        assert(withdrawn(states[n], states[n + 1], denom, amounts[n], period));
        lemma_withdrawal_step(states[n], states[n + 1], denom, amounts[n], period);
        assert(states.last() == states[n + 1]);
        let f = same_key(denom, period);
        lemma_last_index_bounds(states[n + 1], f);
        if last_index(states[n + 1], f) >= 0 {
            let j = last_index(states[n + 1], f);
            let i = last_index(states[n], f);
            lemma_last_index_bounds(states[n], f);
            if states[n][i].token.amount - amounts[n] != 0 {
                lemma_last_index_update(
                    states[n],
                    i,
                    Vtoken {
                        token: Coin {
                            amount: (states[n][i].token.amount - amounts[n]) as u128,
                            ..states[n][i].token
                        },
                        ..states[n][i]
                    },
                    f,
                );
            }
        }
    }
}

/// Why a withdrawal fails, if it does.
pub open spec fn withdraw_failure(
    account: Account,
    denom: Seq<char>,
    amount: u128,
    period: LockingPeriod,
) -> Option<ContractError> {
    let i = record_index(account, denom, period);
    let rec = records(account)[i];
    if i < 0 {
        Some(ContractError::NotFound {  })
    } else if rec.status != Status::Unlocked {
        Some(ContractError::NotUnlocked {  })
    } else if rec.token.amount < amount {
        Some(ContractError::InsufficientFunds { funds: rec.token.amount })
    } else if balance_of(account.unlocked@, denom) < amount {
        Some(ContractError::BalanceMismatch {  })
    } else {
        None
    }
}

/// Pays `amount` of an unlocked record back to its owner. The record goes
/// once nothing is left in it.
pub fn withdraw(
    account: &mut Account,
    block: &BlockInfo,
    denom: &String,
    amount: u128,
    locking_period: LockingPeriod,
) -> (r: Result<Response, ContractError>)
    ensures
        r is Err <==> withdraw_failure(*old(account), denom@, amount, locking_period) is Some,
        r is Err ==> r->Err_0 == withdraw_failure(
            *old(account),
            denom@,
            amount,
            locking_period,
        )->Some_0 && *final(account) == *old(account),
        r is Ok ==> {
            &&& withdrawn(
                records(*old(account)),
                records(*final(account)),
                denom@,
                amount,
                locking_period,
            )
            &&& balance_of(final(account).unlocked@, denom@) == balance_of(
                old(account).unlocked@,
                denom@,
            ) - amount
            &&& forall|d: Seq<char>|
                d != denom@ ==> balance_of(final(account).unlocked@, d) == #[trigger] balance_of(
                    old(account).unlocked@,
                    d,
                )
            &&& final(account).owner == old(account).owner
            &&& final(account).locked == old(account).locked
            &&& final(account).unlocking == old(account).unlocking
            &&& final(account).nft is Some
            &&& final(account).nft->Some_0.owner == old(account).nft->Some_0.owner
            &&& final(account).nft->Some_0.token_id == old(account).nft->Some_0.token_id
            &&& r->Ok_0.messages@.len() == 1
            &&& r->Ok_0.messages@[0] == CosmosMsg::Bank(
                BankMsg::Send {
                    to_address: old(account).owner,
                    amount: r->Ok_0.messages@[0]->Bank_0->Send_amount,
                },
            )
            &&& r->Ok_0.messages@[0]->Bank_0->Send_amount@ == seq![
                Coin { denom: *denom, amount },
            ]
            &&& r->Ok_0.attributes@.len() == 2
            &&& r->Ok_0.attributes@[0].key@ == "action"@
            &&& keys_unique(records(*old(account))) ==> keys_unique(records(*final(account)))
            &&& forall|st: State|
                conversion_holds(st, records(*old(account))) ==> #[trigger] conversion_holds(
                    st,
                    records(*final(account)),
                )
            &&& r->Ok_0.attributes@[0].value@ == "Withdraw"@
            &&& r->Ok_0.attributes@[1].key@ == "Recipent"@
            &&& r->Ok_0.attributes@[1].value == old(account).owner
        },
{
    let ghost key = same_key(denom@, locking_period);
    let (i, status, held) = match &account.nft {
        Some(n) => {
            proof {
                lemma_last_index_bounds(n.vtokens@, key);
            }
            match find_vtoken(&n.vtokens, denom, locking_period) {
                Some(i) => (i, n.vtokens[i].status, n.vtokens[i].token.amount),
                None => {
                    return Err(ContractError::NotFound {  });
                },
            }
        },
        None => {
            return Err(ContractError::NotFound {  });
        },
    };
    if status != Status::Unlocked {
        return Err(ContractError::NotUnlocked {  });
    }
    if held < amount {
        return Err(ContractError::InsufficientFunds { funds: held });
    }
    if balance_amount(&account.unlocked, denom) < amount {
        return Err(ContractError::BalanceMismatch {  });
    }
    let remaining = held - amount;
    let ghost old_account = *account;
    match account.nft.take() {
        Some(mut n) => {
            if remaining == 0 {
                n.vtokens.remove(i);
            } else {
                let new_rec = n.vtokens[i].with_principal(remaining);
                n.vtokens.set(i, new_rec);
            }
            account.nft = Some(n);
        },
        None => {},
    }
    proof {
        let before = records(old_account);
        let after = records(*account);
        assert forall|st: State| conversion_holds(st, before) implies #[trigger] conversion_holds(
            st,
            after,
        ) by {
            assert forall|k: int|
                0 <= k < after.len() && (#[trigger] after[k]).status == Status::Locked implies weighted_amount(
                tier(st, after[k].period).weight,
                after[k].token.amount,
            ) == Some(after[k].vtoken.amount) by {
                if remaining == 0 {
                    if k < i {
                        assert(after[k] == before[k]);
                    } else {
                        assert(after[k] == before[k + 1]);
                    }
                } else {
                    if k != i {
                        assert(after[k] == before[k]);
                    }
                }
            }
        }
        if keys_unique(records(old_account)) {
            lemma_withdrawal_step(
                records(old_account),
                records(*account),
                denom@,
                amount,
                locking_period,
            );
        }
    }
    sub_balance(&mut account.unlocked, denom, amount);
    let mut paid: Vec<Coin> = Vec::new();
    paid.push(Coin { denom: denom.clone(), amount });
    let mut messages: Vec<CosmosMsg> = Vec::new();
    messages.push(
        CosmosMsg::Bank(BankMsg::Send { to_address: account.owner.clone(), amount: paid }),
    );
    let mut attributes: Vec<Attribute> = Vec::new();
    attributes.push(attribute("action", String::from_str("Withdraw")));
    attributes.push(attribute("Recipent", account.owner.clone()));
    Ok(Response { messages, attributes })
}

} // verus!
