use vstd::prelude::*;
use crate::account::{AccountId, AllowanceKey};
use crate::events::{Approval, Burn, Mint, Transfer};

verus! {

/// Why an operation on the ledger was refused.
#[derive(Clone, Copy, Debug, PartialEq, Eq, Structural)]
pub enum TokenError {
    /// The caller is not the owner of the ledger.
    Unauthorized,
    /// Transfers are paused.
    Paused,
    /// The sender or the recipient is blacklisted.
    Blacklisted,
    /// The account holds less than the amount.
    InsufficientBalance,
    /// The spender's allowance is less than the amount.
    AllowanceExceeded,
    /// The list of recipients and the list of amounts differ in length.
    LengthMismatch,
}

/// Addition that stops at `u128::MAX` instead of overflowing.
pub open spec fn sat_add(x: u128, y: u128) -> u128 {
    if x + y > u128::MAX {
        u128::MAX
    } else {
        (x + y) as u128
    }
}

/// The abstract state of a token ledger.
pub struct TokenState {
    pub balances: Map<AccountId, u128>,
    pub allowances: Map<AllowanceKey, u128>,
    pub owner: AccountId,
    pub paused: bool,
    pub blacklist: Map<AccountId, bool>,
}

impl TokenState {
    /// The state right after construction by `owner`.
    pub open spec fn initial(owner: AccountId) -> TokenState {
        TokenState {
            balances: Map::empty(),
            allowances: Map::empty(),
            owner,
            paused: false,
            blacklist: Map::empty(),
        }
    }

    /// Every map holds finitely many entries.
    pub open spec fn valid(self) -> bool {
        &&& self.balances.dom().finite()
        &&& self.allowances.dom().finite()
        &&& self.blacklist.dom().finite()
    }

    /// Balance of `a`; an account without an entry holds 0.
    pub open spec fn balance(self, a: AccountId) -> u128 {
        if self.balances.contains_key(a) {
            self.balances[a]
        } else {
            0
        }
    }

    /// What `spender` may still move out of `owner`'s balance; 0 by default.
    pub open spec fn allowance(self, owner: AccountId, spender: AccountId) -> u128 {
        let k = AllowanceKey { owner, spender };
        if self.allowances.contains_key(k) {
            self.allowances[k]
        } else {
            0
        }
    }

    pub open spec fn is_blacklisted(self, a: AccountId) -> bool {
        self.blacklist.contains_key(a) && self.blacklist[a]
    }

    pub open spec fn with_balance(self, a: AccountId, v: u128) -> TokenState {
        TokenState { balances: self.balances.insert(a, v), ..self }
    }

    pub open spec fn with_allowance(self, owner: AccountId, spender: AccountId, v: u128) -> TokenState {
        TokenState { allowances: self.allowances.insert(AllowanceKey { owner, spender }, v), ..self }
    }

    /// Gate of every balance-moving operation: pause first, then the blacklist.
    pub open spec fn transfer_check(self, from: AccountId, to: AccountId) -> Result<(), TokenError> {
        if self.paused {
            Err(TokenError::Paused)
        } else if self.is_blacklisted(from) || self.is_blacklisted(to) {
            Err(TokenError::Blacklisted)
        } else {
            Ok(())
        }
    }

    /// Debit `from` by `amount` (which it holds), then credit `to`, saturating.
    pub open spec fn move_balance(self, from: AccountId, to: AccountId, amount: u128) -> TokenState {
        let s = self.with_balance(from, (self.balance(from) - amount) as u128);
        s.with_balance(to, sat_add(s.balance(to), amount))
    }

    pub open spec fn mint_spec(self, caller: AccountId, to: AccountId, amount: u128) -> (
        TokenState,
        Result<Mint, TokenError>,
    ) {
        if caller != self.owner {
            (self, Err(TokenError::Unauthorized))
        } else {
            (self.with_balance(to, sat_add(self.balance(to), amount)), Ok(Mint { to, amount }))
        }
    }

    pub open spec fn burn_spec(self, caller: AccountId, amount: u128) -> (
        TokenState,
        Result<Burn, TokenError>,
    ) {
        if self.balance(caller) < amount {
            (self, Err(TokenError::InsufficientBalance))
        } else {
            (
                self.with_balance(caller, (self.balance(caller) - amount) as u128),
                Ok(Burn { from: caller, amount }),
            )
        }
    }

    pub open spec fn transfer_spec(self, caller: AccountId, to: AccountId, amount: u128) -> (
        TokenState,
        Result<Transfer, TokenError>,
    ) {
        match self.transfer_check(caller, to) {
            Err(e) => (self, Err(e)),
            Ok(_) => if self.balance(caller) < amount {
                (self, Err(TokenError::InsufficientBalance))
            } else {
                (self.move_balance(caller, to, amount), Ok(Transfer { from: caller, to, amount }))
            },
        }
    }

    pub open spec fn approve_spec(self, caller: AccountId, spender: AccountId, amount: u128) -> (
        TokenState,
        Result<Approval, TokenError>,
    ) {
        (
            self.with_allowance(caller, spender, amount),
            Ok(Approval { owner: caller, spender, amount }),
        )
    }

    pub open spec fn transfer_from_spec(
        self,
        caller: AccountId,
        from: AccountId,
        to: AccountId,
        amount: u128,
    ) -> (TokenState, Result<Transfer, TokenError>) {
        match self.transfer_check(from, to) {
            Err(e) => (self, Err(e)),
            Ok(_) => if self.allowance(from, caller) < amount {
                (self, Err(TokenError::AllowanceExceeded))
            } else if self.balance(from) < amount {
                (self, Err(TokenError::InsufficientBalance))
            } else {
                (
                    self.move_balance(from, to, amount).with_allowance(
                        from,
                        caller,
                        (self.allowance(from, caller) - amount) as u128,
                    ),
                    Ok(Transfer { from, to, amount }),
                )
            },
        }
    }

    pub open spec fn set_paused_spec(self, caller: AccountId, state: bool) -> (
        TokenState,
        Result<(), TokenError>,
    ) {
        if caller != self.owner {
            (self, Err(TokenError::Unauthorized))
        } else {
            (TokenState { paused: state, ..self }, Ok(()))
        }
    }

    pub open spec fn set_blacklist_spec(self, caller: AccountId, account: AccountId, state: bool) -> (
        TokenState,
        Result<(), TokenError>,
    ) {
        if caller != self.owner {
            (self, Err(TokenError::Unauthorized))
        } else {
            (TokenState { blacklist: self.blacklist.insert(account, state), ..self }, Ok(()))
        }
    }

    /// The first `n` transfers of a batch, stopping at the first that fails;
    /// transfers before it stay committed.
    pub open spec fn batch_prefix(
        self,
        caller: AccountId,
        recipients: Seq<AccountId>,
        amounts: Seq<u128>,
        n: nat,
    ) -> (TokenState, Seq<Transfer>, Result<(), TokenError>)
        decreases n,
    {
        if n == 0 {
            (self, Seq::empty(), Ok(()))
        } else {
            let (s, evs, r) = self.batch_prefix(caller, recipients, amounts, (n - 1) as nat);
            if r is Err {
                (s, evs, r)
            } else {
                let (s2, t) = s.transfer_spec(caller, recipients[n - 1], amounts[n - 1]);
                match t {
                    Ok(e) => (s2, evs.push(e), Ok(())),
                    Err(e) => (s2, evs, Err(e)),
                }
            }
        }
    }

    pub open spec fn batch_spec(
        self,
        caller: AccountId,
        recipients: Seq<AccountId>,
        amounts: Seq<u128>,
    ) -> (TokenState, Seq<Transfer>, Result<(), TokenError>) {
        if recipients.len() != amounts.len() {
            (self, Seq::empty(), Err(TokenError::LengthMismatch))
        } else {
            self.batch_prefix(caller, recipients, amounts, recipients.len())
        }
    }

    /// Once a batch has failed, the later elements change nothing.
    pub proof fn lemma_batch_prefix_stops(
        self,
        caller: AccountId,
        recipients: Seq<AccountId>,
        amounts: Seq<u128>,
        k: nat,
        n: nat,
    )
        requires
            k <= n,
            self.batch_prefix(caller, recipients, amounts, k).2 is Err,
        ensures
            self.batch_prefix(caller, recipients, amounts, n) == self.batch_prefix(
                caller,
                recipients,
                amounts,
                k,
            ),
        decreases n - k,
    {
        if n > k {
            self.lemma_batch_prefix_stops(caller, recipients, amounts, k, (n - 1) as nat);
        }
    }
}

} // verus!
