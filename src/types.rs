//! Values that both engines exchange with the host: coins, block
//! information, and the response an operation hands back.

use vstd::prelude::*;
use crate::bindings::ComdexMessages;

verus! {

/// An amount of one denomination.
#[derive(Clone, Debug, PartialEq, Eq)]
pub struct Coin {
    pub denom: String,
    pub amount: u128,
}

impl Coin {
    pub fn new(denom: String, amount: u128) -> (r: Coin)
        ensures
            r.denom == denom,
            r.amount == amount,
    {
        Coin { denom, amount }
    }

    /// A copy of this coin.
    pub fn duplicate(&self) -> (r: Coin)
        ensures
            r == *self,
    {
        Coin { denom: self.denom.clone(), amount: self.amount }
    }
}

/// A copy of a list of coins.
pub fn duplicate_coins(coins: &Vec<Coin>) -> (r: Vec<Coin>)
    ensures
        r@ == coins@,
{
    let mut r: Vec<Coin> = Vec::new();
    let mut i: usize = 0;
    while i < coins.len()
        invariant
            i <= coins@.len(),
            r@ == coins@.subrange(0, i as int),
        decreases coins@.len() - i,
    {
        r.push(coins[i].duplicate());
        i = i + 1;
        assert(r@ =~= coins@.subrange(0, i as int));
    }
    assert(r@ =~= coins@);
    r
}

/// A point in time, in nanoseconds since the epoch.
#[derive(Clone, Copy, Debug, PartialEq, Eq, PartialOrd, Ord, Hash, Structural)]
pub struct Timestamp {
    pub nanos: u64,
}

/// Nanoseconds in one second.
pub const NANOS_PER_SECOND: u64 = 1_000_000_000;

impl Timestamp {
    pub fn from_nanos(nanos: u64) -> (r: Timestamp)
        ensures
            r.nanos == nanos,
    {
        Timestamp { nanos }
    }

    pub fn from_seconds(seconds: u64) -> (r: Timestamp)
        requires
            seconds * NANOS_PER_SECOND <= u64::MAX,
        ensures
            r.nanos == seconds * NANOS_PER_SECOND,
    {
        Timestamp { nanos: seconds * NANOS_PER_SECOND }
    }

    /// Whole seconds since the epoch.
    pub fn seconds(&self) -> (r: u64)
        ensures
            r == self.nanos / NANOS_PER_SECOND,
    {
        self.nanos / NANOS_PER_SECOND
    }

    /// This time moved `seconds` later; `None` where that overflows.
    pub fn plus_seconds(&self, seconds: u64) -> (r: Option<Timestamp>)
        ensures
            self.nanos + seconds * NANOS_PER_SECOND <= u64::MAX ==> r == Some(
                Timestamp { nanos: (self.nanos + seconds * NANOS_PER_SECOND) as u64 },
            ),
            self.nanos + seconds * NANOS_PER_SECOND > u64::MAX ==> r is None,
    {
        assert((seconds as u128) * (NANOS_PER_SECOND as u128) <= 0xFFFF_FFFF_FFFF_FFFFu128 * 1_000_000_000u128) by (nonlinear_arith);
        let delta: u128 = (seconds as u128) * (NANOS_PER_SECOND as u128);
        let total: u128 = (self.nanos as u128) + delta;
        if total <= u64::MAX as u128 {
            Some(Timestamp { nanos: total as u64 })
        } else {
            None
        }
    }
}

/// What an operation knows of the block that carries it.
#[derive(Clone, Copy, Debug, PartialEq, Eq, Structural)]
pub struct BlockInfo {
    pub height: u64,
    pub time: Timestamp,
}

/// A key and a value describing what an operation did.
#[derive(Clone, Debug, PartialEq, Eq)]
pub struct Attribute {
    pub key: String,
    pub value: String,
}

pub fn attribute(key: &str, value: String) -> (r: Attribute)
    ensures
        r.key@ == key@,
        r.value == value,
{
    Attribute { key: String::from_str(key), value }
}

/// A transfer of coins from the contract.
#[derive(Clone, Debug, PartialEq, Eq)]
pub enum BankMsg {
    Send { to_address: String, amount: Vec<Coin> },
}

/// A message that the host dispatches once the operation commits.
#[derive(Clone, Debug, PartialEq, Eq)]
pub enum CosmosMsg {
    Bank(BankMsg),
    Custom(ComdexMessages),
}

/// What a successful operation hands back to the host.
#[derive(Clone, Debug, PartialEq, Eq)]
pub struct Response {
    pub messages: Vec<CosmosMsg>,
    pub attributes: Vec<Attribute>,
}

} // verus!
