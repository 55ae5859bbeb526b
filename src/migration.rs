//! The version check made before a stored contract is upgraded.

use vstd::prelude::*;

verus! {

/// The name and version an instance of the contract was stored with.
#[derive(Clone, Debug, PartialEq, Eq)]
pub struct ContractVersion {
    pub contract: String,
    pub version: String,
}

/// Why an upgrade is refused.
#[derive(Clone, Copy, Debug, PartialEq, Eq, Structural)]
pub enum MigrateError {
    /// The stored instance is of another contract.
    OtherContract,
    /// The stored instance is of a newer version than this code.
    NewerVersion,
}

/// Lexicographic order of two texts, character by character.
pub open spec fn text_order(a: Seq<char>, b: Seq<char>) -> std::cmp::Ordering
    decreases a.len(),
{
    if a.len() == 0 && b.len() == 0 {
        std::cmp::Ordering::Equal
    } else if a.len() == 0 {
        std::cmp::Ordering::Less
    } else if b.len() == 0 {
        std::cmp::Ordering::Greater
    } else if (a[0] as int) < (b[0] as int) {
        std::cmp::Ordering::Less
    } else if (a[0] as int) > (b[0] as int) {
        std::cmp::Ordering::Greater
    } else {
        text_order(a.drop_first(), b.drop_first())
    }
}

proof fn lemma_text_order_equal(a: Seq<char>, b: Seq<char>)
    ensures
        (text_order(a, b) == std::cmp::Ordering::Equal) == (a == b),
    decreases a.len(),
{
    if a.len() == 0 && b.len() == 0 {
        assert(a =~= b);
    } else if a.len() > 0 && b.len() > 0 && a[0] as int == b[0] as int {
        lemma_text_order_equal(a.drop_first(), b.drop_first());
        assert(a =~= seq![a[0]] + a.drop_first());
        assert(b =~= seq![b[0]] + b.drop_first());
        if a == b {
            assert(a.drop_first() =~= b.drop_first());
        }
    } else if a.len() > 0 && b.len() > 0 {
        assert(a[0] != b[0]);
    }
}

/// The lexicographic order of two texts.
pub fn compare_text(a: &str, b: &str) -> (r: std::cmp::Ordering)
    ensures
        r == text_order(a@, b@),
        (r == std::cmp::Ordering::Equal) == (a@ == b@),
{
    proof {
        lemma_text_order_equal(a@, b@);
    }
    let la = a.unicode_len();
    let lb = b.unicode_len();
    let mut i: usize = 0;
    assert(a@.skip(0) =~= a@ && b@.skip(0) =~= b@);
    while i < la && i < lb
        invariant
            la == a@.len(),
            lb == b@.len(),
            i <= la,
            i <= lb,
            text_order(a@, b@) == text_order(a@.skip(i as int), b@.skip(i as int)),
        decreases la - i,
    {
        let ca = a.get_char(i);
        let cb = b.get_char(i);
        assert(a@.skip(i as int)[0] == ca && b@.skip(i as int)[0] == cb);
        if (ca as u32) < (cb as u32) {
            return std::cmp::Ordering::Less;
        }
        if (ca as u32) > (cb as u32) {
            return std::cmp::Ordering::Greater;
        }
        assert(a@.skip(i as int).drop_first() =~= a@.skip(i as int + 1));
        assert(b@.skip(i as int).drop_first() =~= b@.skip(i as int + 1));
        i = i + 1;
    }
    if la == lb {
        std::cmp::Ordering::Equal
    } else if i == la {
        std::cmp::Ordering::Less
    } else {
        std::cmp::Ordering::Greater
    }
}

/// Allows an upgrade of a stored instance of `contract` to `version`: the
/// stored instance must be of the same contract and of no newer version,
/// versions being compared as text.
pub fn check_migration(stored: &ContractVersion, contract: &str, version: &str) -> (r: Result<
    (),
    MigrateError,
>)
    ensures
        stored.contract@ != contract@ ==> r == Err::<(), MigrateError>(MigrateError::OtherContract),
        stored.contract@ == contract@ && text_order(stored.version@, version@)
            == std::cmp::Ordering::Greater ==> r == Err::<(), MigrateError>(
            MigrateError::NewerVersion,
        ),
        stored.contract@ == contract@ && text_order(stored.version@, version@)
            != std::cmp::Ordering::Greater ==> r is Ok,
{
    match compare_text(stored.contract.as_str(), contract) {
        std::cmp::Ordering::Equal => {},
        _ => {
            return Err(MigrateError::OtherContract);
        },
    }
    match compare_text(stored.version.as_str(), version) {
        std::cmp::Ordering::Greater => Err(MigrateError::NewerVersion),
        _ => Ok(()),
    }
}

} // verus!
