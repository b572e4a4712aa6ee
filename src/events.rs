use vstd::prelude::*;
use crate::account::AccountId;

verus! {

/// Tokens were issued to `to`.
#[derive(Clone, Copy, Debug)]
pub struct Mint {
    pub to: AccountId,
    pub amount: u128,
}

/// Tokens were destroyed from the holdings of `from`.
#[derive(Clone, Copy, Debug)]
pub struct Burn {
    pub from: AccountId,
    pub amount: u128,
}

/// Tokens moved from `from` to `to`.
#[derive(Clone, Copy, Debug)]
pub struct Transfer {
    pub from: AccountId,
    pub to: AccountId,
    pub amount: u128,
}

/// `owner` allowed `spender` to move up to `amount` of its tokens.
#[derive(Clone, Copy, Debug)]
pub struct Approval {
    pub owner: AccountId,
    pub spender: AccountId,
    pub amount: u128,
}

} // verus!
