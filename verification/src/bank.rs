//! The account transfers that exercise the locks: which accounts a transfer touches,
//! which resources it locks, and the balances it writes.

use vstd::prelude::*;
use crate::command::texts;
use crate::outside::{gen_range_0_to_3, gen_range_10_to_100};

verus! {

/// Which accounts a transfer moves money between.
#[derive(Debug, Clone, Copy, PartialEq, Eq, Structural)]
pub enum TransferType {
    /// From account 1 to account 2.
    Account1ToAccount2,
    /// From account 2 to account 3.
    Account2ToAccount3,
    /// From account 1 to account 3.
    Account1ToAccount3,
}

/// The account that a transfer of kind `kind` debits.
pub open spec fn source_of(kind: TransferType) -> Seq<char> {
    match kind {
        TransferType::Account1ToAccount2 => "account1"@,
        TransferType::Account2ToAccount3 => "account2"@,
        TransferType::Account1ToAccount3 => "account1"@,
    }
}

/// The account that a transfer of kind `kind` credits.
pub open spec fn target_of(kind: TransferType) -> Seq<char> {
    match kind {
        TransferType::Account1ToAccount2 => "account2"@,
        TransferType::Account2ToAccount3 => "account3"@,
        TransferType::Account1ToAccount3 => "account3"@,
    }
}

/// The kind of transfer that the draw `index` of `0..3` stands for.
pub open spec fn kind_of_index(index: int) -> TransferType {
    if index == 0 {
        TransferType::Account1ToAccount2
    } else if index == 1 {
        TransferType::Account2ToAccount3
    } else {
        TransferType::Account1ToAccount3
    }
}

impl TransferType {
    /// The kind of transfer that a uniform draw `index` from `0..3` selects.
    pub fn from_index(index: i32) -> (kind: Self)
        requires
            0 <= index < 3,
        ensures
            kind == kind_of_index(index as int),
            index == 0 ==> kind == TransferType::Account1ToAccount2,
            index == 1 ==> kind == TransferType::Account2ToAccount3,
            index == 2 ==> kind == TransferType::Account1ToAccount3,
    {
        if index == 0 {
            TransferType::Account1ToAccount2
        } else if index == 1 {
            TransferType::Account2ToAccount3
        } else {
            TransferType::Account1ToAccount3
        }
    }

    /// The account debited, the account credited, and the resources to lock: both
    /// accounts, debited one first.
    pub fn route(&self) -> (route: (&'static str, &'static str, Vec<String>))
        ensures
            route.0@ == source_of(*self),
            route.1@ == target_of(*self),
            *self == TransferType::Account1ToAccount2 ==> route.0@ == "account1"@ && route.1@ == "account2"@,
            *self == TransferType::Account2ToAccount3 ==> route.0@ == "account2"@ && route.1@ == "account3"@,
            *self == TransferType::Account1ToAccount3 ==> route.0@ == "account1"@ && route.1@ == "account3"@,
            texts(route.2@) == seq![route.0@, route.1@],
    {
        let (from, to) = match self {
            TransferType::Account1ToAccount2 => ("account1", "account2"),
            TransferType::Account2ToAccount3 => ("account2", "account3"),
            TransferType::Account1ToAccount3 => ("account1", "account3"),
        };
        let resources = vec![String::from_str(from), String::from_str(to)];
        assert(texts(resources@) =~= seq![from@, to@]);
        (from, to, resources)
    }
}

/// Draws a random kind of transfer, each of the three with the same chance.
pub fn draw_transfer_type(rng: &mut rand::rngs::ThreadRng) -> TransferType {
    let index: i32 = gen_range_0_to_3(rng);
    TransferType::from_index(index)
}

/// Draws a random amount to transfer, between 10 and 100 inclusive.
pub fn draw_amount(rng: &mut rand::rngs::ThreadRng) -> (amount: i64)
    ensures
        10 <= amount <= 100,
{
    gen_range_10_to_100(rng)
}

/// Whether the debited account holds enough for the transfer.
pub fn can_transfer(from_balance: i64, amount: i64) -> (allowed: bool)
    ensures
        allowed == (from_balance >= amount),
{
    from_balance >= amount
}

/// The balances after moving `amount` from the first account to the second.
pub open spec fn settled(from_balance: int, to_balance: int, amount: int) -> (int, int) {
    (from_balance - amount, to_balance + amount)
}

/// The new balances of the two accounts of a transfer that the debited account covers.
pub fn settle(from_balance: i64, to_balance: i64, amount: i64) -> (balances: (i64, i64))
    requires
        from_balance >= amount,
        i64::MIN <= from_balance - amount <= i64::MAX,
        i64::MIN <= to_balance + amount <= i64::MAX,
    ensures
        (balances.0 as int, balances.1 as int) == settled(from_balance as int, to_balance as int, amount as int),
        balances.0 == from_balance - amount,
        balances.1 == to_balance + amount,
{
    (from_balance - amount, to_balance + amount)
}

/// Why a checked transfer could not compute a balance.
#[derive(Debug, Clone, Copy, PartialEq, Eq, Structural)]
pub enum TransferFault {
    /// The debited balance would fall below the smallest `i64`.
    Underflow,
    /// The credited balance would rise above the largest `i64`.
    Overflow,
}

impl TransferFault {
    /// The message of this fault.
    pub fn message(&self) -> (text: &'static str)
        ensures
            *self == TransferFault::Underflow ==> text@ == "underflow"@,
            *self == TransferFault::Overflow ==> text@ == "overflow"@,
    {
        match self {
            TransferFault::Underflow => "underflow",
            TransferFault::Overflow => "overflow",
        }
    }
}

/// The new balances of a transfer, each computed with overflow checks: the debited
/// balance, or `Underflow`; the credited balance, or `Overflow`.
pub fn settle_checked(from_balance: i64, to_balance: i64, amount: i64)
    -> (balances: (Result<i64, TransferFault>, Result<i64, TransferFault>))
    ensures
        match balances.0 {
            Ok(b) => b == from_balance - amount,
            Err(fault) => fault == TransferFault::Underflow
                && !(i64::MIN <= from_balance - amount <= i64::MAX),
        },
        match balances.1 {
            Ok(b) => b == to_balance + amount,
            Err(fault) => fault == TransferFault::Overflow
                && !(i64::MIN <= to_balance + amount <= i64::MAX),
        },
{
    let debited = match from_balance.checked_sub(amount) {
        Some(b) => Ok(b),
        None => Err(TransferFault::Underflow),
    };
    let credited = match to_balance.checked_add(amount) {
        Some(b) => Ok(b),
        None => Err(TransferFault::Overflow),
    };
    (debited, credited)
}

/// A transfer moves money without creating or destroying any: the two balances sum to
/// what they summed to before, and a covered transfer of a non-negative amount leaves
/// the debited account non-negative.
pub proof fn lemma_transfer_conserves_total(from_balance: int, to_balance: int, amount: int)
    ensures
        settled(from_balance, to_balance, amount).0 + settled(from_balance, to_balance, amount).1
            == from_balance + to_balance,
        from_balance >= amount >= 0 ==> settled(from_balance, to_balance, amount).0 >= 0,
        to_balance >= 0 && amount >= 0 ==> settled(from_balance, to_balance, amount).1 >= 0,
{
}

/// Every transfer touches two different accounts: it never debits the account it
/// credits. It debits account 1 or 2 and credits account 2 or 3.
pub proof fn lemma_route_locks_both_accounts(kind: TransferType)
    ensures
        source_of(kind) != target_of(kind),
        source_of(kind) == "account1"@ || source_of(kind) == "account2"@,
        target_of(kind) == "account2"@ || target_of(kind) == "account3"@,
{
    reveal_strlit("account1");
    reveal_strlit("account2");
    reveal_strlit("account3");
    assert("account1"@[7] == '1');
    assert("account2"@[7] == '2');
    assert("account3"@[7] == '3');
}

/// The three draws of `0..3` select the three kinds of transfer, each exactly once, so
/// every kind is drawn with the same chance.
pub proof fn lemma_index_selects_each_kind_once(first: int, second: int, kind: TransferType)
    requires
        0 <= first < 3,
        0 <= second < 3,
    ensures
        kind_of_index(first) == kind_of_index(second) ==> first == second,
        exists|i: int| 0 <= i < 3 && kind_of_index(i) == kind,
{
    match kind {
        TransferType::Account1ToAccount2 => assert(kind_of_index(0) == kind),
        TransferType::Account2ToAccount3 => assert(kind_of_index(1) == kind),
        TransferType::Account1ToAccount3 => assert(kind_of_index(2) == kind),
    }
}

} // verus!
