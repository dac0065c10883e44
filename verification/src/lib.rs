//! A small verified account ledger: a JSON document describing one account
//! (an identifier plus a list of transactions) is parsed into an [`account::Account`],
//! and the account balance is computed as the sum of its transaction amounts,
//! rejecting a negative total.

pub mod account;
pub mod json;
