//! The account record, its errors, and the balance computation.

use vstd::prelude::*;

use crate::json::find_field;
use crate::json::json_accepted;
use crate::json::json_model;
use crate::json::obj_lookup;
use crate::json::parse_json;
use crate::json::Json;

verus! {

/// A single signed monetary movement contributing to the account balance.
#[derive(Debug, PartialEq)]
pub struct Transaction {
    pub id: String,
    pub amount: i64,
}

/// The record being validated: an identifier and its transactions.
#[derive(Debug, PartialEq)]
pub struct Account {
    pub id: String,
    pub transactions: Vec<Transaction>,
}

/// Everything that can go wrong while loading an account and computing its
/// balance: the file cannot be read, its contents do not parse as an account,
/// or the transactions sum to a negative balance (carried in the variant).
#[derive(Debug, PartialEq, Eq, Structural)]
pub enum AccountError {
    IOError,
    ParseError,
    NegativeBalance(i64),
}

/// Whether `j` is a JSON object carrying a transaction: a string field `id`
/// and an `i64` field `amount`. Further fields are ignored.
pub open spec fn is_tx_json(j: Json) -> bool {
    match j {
        Json::Object(fields) => (obj_lookup(fields@, "id"@) matches Some(Json::Text(_)))
            && (obj_lookup(fields@, "amount"@) matches Some(Json::Int(_))),
        _ => false,
    }
}

/// The `id` field of a transaction object, meaningful when `is_tx_json(j)`.
pub open spec fn tx_id_of(j: Json) -> Seq<char> {
    match j {
        Json::Object(fields) => match obj_lookup(fields@, "id"@) {
            Some(Json::Text(s)) => s@,
            _ => Seq::empty(),
        },
        _ => Seq::empty(),
    }
}

/// The `amount` field of a transaction object, meaningful when `is_tx_json(j)`.
pub open spec fn tx_amount_of(j: Json) -> i64 {
    match j {
        Json::Object(fields) => match obj_lookup(fields@, "amount"@) {
            Some(Json::Int(n)) => n,
            _ => 0,
        },
        _ => 0,
    }
}

/// `t` carries exactly the fields of the transaction object `j`.
pub open spec fn tx_matches(t: Transaction, j: Json) -> bool {
    t.id@ == tx_id_of(j) && t.amount == tx_amount_of(j)
}

/// The elements of the `transactions` field, meaningful when it is an array.
pub open spec fn tx_items_of(j: Json) -> Seq<Json> {
    match j {
        Json::Object(fields) => match obj_lookup(fields@, "transactions"@) {
            Some(Json::Array(items)) => items@,
            _ => Seq::empty(),
        },
        _ => Seq::empty(),
    }
}

/// Whether `j` is a JSON object matching the account schema: a string field
/// `id` and a field `transactions` holding an array of transaction objects.
/// Further fields are ignored.
pub open spec fn is_account_json(j: Json) -> bool {
    match j {
        Json::Object(fields) => (obj_lookup(fields@, "id"@) matches Some(Json::Text(_)))
            && (obj_lookup(fields@, "transactions"@) matches Some(Json::Array(_)))
            && (forall|k: int| 0 <= k < tx_items_of(j).len() ==> is_tx_json(tx_items_of(j)[k])),
        _ => false,
    }
}

/// The `id` field of an account object, meaningful when `is_account_json(j)`.
pub open spec fn account_id_of(j: Json) -> Seq<char> {
    match j {
        Json::Object(fields) => match obj_lookup(fields@, "id"@) {
            Some(Json::Text(s)) => s@,
            _ => Seq::empty(),
        },
        _ => Seq::empty(),
    }
}

/// `a` carries exactly the `id` and the transactions of the account object `j`.
pub open spec fn account_matches(a: Account, j: Json) -> bool {
    a.id@ == account_id_of(j) && a.transactions@.len() == tx_items_of(j).len() && (forall|k: int|
        0 <= k < tx_items_of(j).len() ==> tx_matches(a.transactions@[k], tx_items_of(j)[k]))
}

/// The mathematical sum of the transaction amounts, folded left to right.
pub open spec fn exact_sum(txs: Seq<Transaction>) -> int
    decreases txs.len(),
{
    if txs.len() == 0 {
        0
    } else {
        exact_sum(txs.drop_last()) + txs.last().amount
    }
}

/// The transaction amounts folded left to right with `i64` wrapping addition:
/// the sum the machine computes. Overflow wraps, as the unchecked addition in
/// a release build does.
pub open spec fn wrapped_sum(txs: Seq<Transaction>) -> i64
    decreases txs.len(),
{
    if txs.len() == 0 {
        0
    } else {
        vstd::wrapping::i64_specs::wrapping_add(wrapped_sum(txs.drop_last()), txs.last().amount)
    }
}

/// What `Account::balance` returns: the wrapped sum when it is non-negative,
/// and `NegativeBalance` carrying that sum otherwise.
pub open spec fn balance_spec(txs: Seq<Transaction>) -> Result<i64, AccountError> {
    if wrapped_sum(txs) < 0 {
        Err(AccountError::NegativeBalance(wrapped_sum(txs)))
    } else {
        Ok(wrapped_sum(txs))
    }
}

impl Account {
    /// Folds the transaction amounts into a single sum starting at 0, left to
    /// right, wrapping on `i64` overflow; fails with `NegativeBalance` when
    /// the sum is negative.
    pub fn balance(&self) -> (r: Result<i64, AccountError>)
        ensures
            r == balance_spec(self.transactions@),
    {
        let mut sum: i64 = 0;
        let mut i: usize = 0;
        while i < self.transactions.len()
            invariant
                i <= self.transactions@.len(),
                sum == wrapped_sum(self.transactions@.take(i as int)),
            decreases self.transactions@.len() - i,
        {
            proof {
                assert(self.transactions@.take(i + 1).drop_last() =~= self.transactions@.take(
                    i as int,
                ));
            }
            sum = sum.wrapping_add(self.transactions[i].amount);
            i = i + 1;
        }
        proof {
            assert(self.transactions@.take(i as int) =~= self.transactions@);
        }
        if sum < 0 {
            return Err(AccountError::NegativeBalance(sum));
        }
        Ok(sum)
    }
}

/// The modulus of `i64` wrapping arithmetic.
pub open spec fn i64_modulus() -> int {
    0x1_0000_0000_0000_0000
}

/// The machine sum and the mathematical sum of the transaction amounts agree
/// modulo 2^64: wrapping addition only ever shifts the running total by whole
/// multiples of the modulus.
pub proof fn lemma_wrapped_sum_congruent(txs: Seq<Transaction>)
    ensures
        (wrapped_sum(txs) - exact_sum(txs)) % i64_modulus() == 0,
    decreases txs.len(),
{
    let m = i64_modulus();
    if txs.len() == 0 {
    } else {
        let prev = txs.drop_last();
        lemma_wrapped_sum_congruent(prev);
        let wp = wrapped_sum(prev) as int;
        let ep = exact_sum(prev);
        let a = txs.last().amount as int;
        if wp + a > i64::MAX {
            assert(wrapped_sum(txs) == wp + a - m);
            vstd::arithmetic::div_mod::lemma_mod_sub_multiples_vanish(wp - ep, m);
        } else if wp + a < i64::MIN {
            assert(wrapped_sum(txs) == wp + a + m);
            vstd::arithmetic::div_mod::lemma_mod_add_multiples_vanish(wp - ep, m);
        }
    }
}

/// Whenever the mathematical sum of the transaction amounts lies within the
/// `i64` range, the machine sum is exactly that sum, even if a running prefix
/// of the fold overflowed along the way.
pub proof fn lemma_wrapped_sum_is_exact(txs: Seq<Transaction>)
    requires
        i64::MIN <= exact_sum(txs) <= i64::MAX,
    ensures
        wrapped_sum(txs) == exact_sum(txs),
{
    lemma_wrapped_sum_congruent(txs);
    let m = i64_modulus();
    let d = wrapped_sum(txs) - exact_sum(txs);
    vstd::arithmetic::div_mod::lemma_fundamental_div_mod(d, m);
    let q = d / m;
    assert(d == m * q);
    if q >= 1 {
        assert(m * q >= m) by (nonlinear_arith)
            requires
                q >= 1,
                m > 0,
        ;
        assert(false);
    }
    if q <= -1 {
        assert(m * q <= -m) by (nonlinear_arith)
            requires
                q <= -1,
                m > 0,
        ;
        assert(false);
    }
}

/// For any account whose transaction amounts sum, as unbounded integers, to a
/// non-negative value (one the `i64` result can carry), the balance
/// computation succeeds with exactly that sum.
pub proof fn lemma_balance_of_nonnegative_sum(txs: Seq<Transaction>)
    requires
        0 <= exact_sum(txs) <= i64::MAX,
    ensures
        balance_spec(txs) == Ok::<i64, AccountError>(exact_sum(txs) as i64),
{
    lemma_wrapped_sum_is_exact(txs);
}

/// For any account whose transaction amounts sum, as unbounded integers, to a
/// negative value (one the `i64` result can carry), the balance computation
/// fails with `NegativeBalance` carrying exactly that sum.
pub proof fn lemma_balance_of_negative_sum(txs: Seq<Transaction>)
    requires
        i64::MIN <= exact_sum(txs) < 0,
    ensures
        balance_spec(txs) == Err::<i64, AccountError>(
            AccountError::NegativeBalance(exact_sum(txs) as i64),
        ),
{
    lemma_wrapped_sum_is_exact(txs);
}

impl Transaction {
    /// Reads one transaction out of a parsed JSON value, failing with
    /// `ParseError` when the value is not a transaction object.
    pub fn from_json(j: &Json) -> (r: Result<Transaction, AccountError>)
        ensures
            match r {
                Ok(t) => is_tx_json(*j) && tx_matches(t, *j),
                Err(e) => e == AccountError::ParseError && !is_tx_json(*j),
            },
    {
        let fields = match j {
            Json::Object(fields) => fields,
            _ => {
                return Err(AccountError::ParseError);
            },
        };
        let id = match find_field(fields, &("id".to_owned())) {
            Some(v) => match v {
                Json::Text(s) => s.clone(),
                _ => {
                    return Err(AccountError::ParseError);
                },
            },
            None => {
                return Err(AccountError::ParseError);
            },
        };
        let amount = match find_field(fields, &("amount".to_owned())) {
            Some(v) => match v {
                Json::Int(n) => *n,
                _ => {
                    return Err(AccountError::ParseError);
                },
            },
            None => {
                return Err(AccountError::ParseError);
            },
        };
        Ok(Transaction { id, amount })
    }
}

/// Reads a transaction list out of the elements of a parsed JSON array,
/// failing with `ParseError` when some element is not a transaction object.
pub fn transactions_from_json(items: &Vec<Json>) -> (r: Result<Vec<Transaction>, AccountError>)
    ensures
        match r {
            Ok(ts) => ts@.len() == items@.len() && (forall|k: int|
                0 <= k < items@.len() ==> is_tx_json(items@[k])) && (forall|k: int|
                0 <= k < items@.len() ==> tx_matches(ts@[k], items@[k])),
            Err(e) => e == AccountError::ParseError && !(forall|k: int|
                0 <= k < items@.len() ==> is_tx_json(items@[k])),
        },
{
    let mut ts: Vec<Transaction> = Vec::new();
    let mut i: usize = 0;
    while i < items.len()
        invariant
            i <= items@.len(),
            ts@.len() == i,
            forall|k: int| 0 <= k < i ==> is_tx_json(items@[k]),
            forall|k: int| 0 <= k < i ==> tx_matches(ts@[k], items@[k]),
        decreases items@.len() - i,
    {
        match Transaction::from_json(&items[i]) {
            Ok(t) => ts.push(t),
            Err(e) => {
                assert(!is_tx_json(items@[i as int]));
                return Err(e);
            },
        }
        i = i + 1;
    }
    Ok(ts)
}

impl Account {
    /// Reads an account out of a parsed JSON value, failing with `ParseError`
    /// when the value is not an object matching the account schema.
    pub fn from_json(j: &Json) -> (r: Result<Account, AccountError>)
        ensures
            match r {
                Ok(a) => is_account_json(*j) && account_matches(a, *j),
                Err(e) => e == AccountError::ParseError && !is_account_json(*j),
            },
    {
        let fields = match j {
            Json::Object(fields) => fields,
            _ => {
                return Err(AccountError::ParseError);
            },
        };
        let id = match find_field(fields, &("id".to_owned())) {
            Some(v) => match v {
                Json::Text(s) => s.clone(),
                _ => {
                    return Err(AccountError::ParseError);
                },
            },
            None => {
                return Err(AccountError::ParseError);
            },
        };
        let items = match find_field(fields, &("transactions".to_owned())) {
            Some(v) => match v {
                Json::Array(items) => items,
                _ => {
                    return Err(AccountError::ParseError);
                },
            },
            None => {
                return Err(AccountError::ParseError);
            },
        };
        let transactions = match transactions_from_json(items) {
            Ok(ts) => ts,
            Err(e) => {
                assert(tx_items_of(*j) == items@);
                return Err(e);
            },
        };
        Ok(Account { id, transactions })
    }

    /// Parses a JSON document and reads the account out of it: the whole
    /// loading pipeline short of the file read. Fails with `ParseError` when
    /// the bytes are not well-formed JSON or the document does not match the
    /// account schema.
    pub fn from_json_bytes(data: &[u8]) -> (r: Result<Account, AccountError>)
        ensures
            match r {
                Ok(a) => json_accepted(data@) && is_account_json(json_model(data@))
                    && account_matches(a, json_model(data@)),
                Err(e) => e == AccountError::ParseError && !(json_accepted(data@)
                    && is_account_json(json_model(data@))),
            },
    {
        match parse_json(data) {
            Some(j) => Account::from_json(&j),
            None => Err(AccountError::ParseError),
        }
    }
}

impl AccountError {
    /// A short human-readable description of the error kind.
    pub fn description(&self) -> (r: &'static str)
        ensures
            *self is IOError ==> r@ == "IO error"@,
            *self is ParseError ==> r@ == "JSON error"@,
            *self is NegativeBalance ==> r@ == "Negative balance"@,
    {
        match *self {
            AccountError::IOError => "IO error",
            AccountError::ParseError => "JSON error",
            AccountError::NegativeBalance(_) => "Negative balance",
        }
    }
}

} // verus!
