use vstd::prelude::*;
use crate::account::{AccountId, AllowanceKey, Key};
use crate::events::{Approval, Burn, Mint, Transfer};
use crate::state::{TokenError, TokenState};
use crate::table::Table;

verus! {

/// A token ledger: balances, allowances, and owner-controlled access rules.
///
/// The caller's identity is handed to each operation; a successful operation
/// returns the event it gives rise to.
pub struct SimpleToken {
    balances: Table<AccountId, u128>,
    allowances: Table<AllowanceKey, u128>,
    owner: AccountId,
    paused: bool,
    blacklist: Table<AccountId, bool>,
}

impl SimpleToken {
    pub closed spec fn view(&self) -> TokenState {
        TokenState {
            balances: self.balances@,
            allowances: self.allowances@,
            owner: self.owner,
            paused: self.paused,
            blacklist: self.blacklist@,
        }
    }

    pub closed spec fn wf(&self) -> bool {
        self.balances.wf() && self.allowances.wf() && self.blacklist.wf()
    }

    /// A well-formed ledger has a valid abstract state.
    pub proof fn lemma_wf_valid(&self)
        requires
            self.wf(),
        ensures
            self@.valid(),
    {
        self.balances.lemma_wf_finite();
        self.allowances.lemma_wf_finite();
        self.blacklist.lemma_wf_finite();
    }

    /// A ledger owned by `caller`, with no balances, no allowances, not paused.
    pub fn new(caller: AccountId) -> (r: Self)
        ensures
            r.wf(),
            r@ == TokenState::initial(caller),
    {
        SimpleToken {
            balances: Table::new(),
            allowances: Table::new(),
            owner: caller,
            paused: false,
            blacklist: Table::new(),
        }
    }

    fn is_blacklisted(&self, account: &AccountId) -> (r: bool)
        requires
            self.wf(),
        ensures
            r == self@.is_blacklisted(*account),
    {
        match self.blacklist.get(account) {
            Some(b) => b,
            None => false,
        }
    }

    /// Pause and blacklist gate for moving tokens from `from` to `to`.
    fn can_transfer(&self, from: &AccountId, to: &AccountId) -> (r: Result<(), TokenError>)
        requires
            self.wf(),
        ensures
            r == self@.transfer_check(*from, *to),
    {
        if self.paused {
            return Err(TokenError::Paused);
        }
        if self.is_blacklisted(from) {
            return Err(TokenError::Blacklisted);
        }
        if self.is_blacklisted(to) {
            return Err(TokenError::Blacklisted);
        }
        Ok(())
    }

    /// Issue `amount` new tokens to `to`; only the owner may. The balance
    /// saturates at `u128::MAX`.
    pub fn mint(&mut self, caller: AccountId, to: AccountId, amount: u128) -> (r: Result<
        Mint,
        TokenError,
    >)
        requires
            old(self).wf(),
        ensures
            final(self).wf(),
            (final(self)@, r) == old(self)@.mint_spec(caller, to, amount),
    {
        if !caller.same(&self.owner) {
            return Err(TokenError::Unauthorized);
        }
        let current = self.balance_of(to);
        let new_balance = current.saturating_add(amount);
        self.balances.insert(to, new_balance);
        Ok(Mint { to, amount })
    }

    /// Destroy `amount` of the caller's own tokens.
    pub fn burn(&mut self, caller: AccountId, amount: u128) -> (r: Result<Burn, TokenError>)
        requires
            old(self).wf(),
        ensures
            final(self).wf(),
            (final(self)@, r) == old(self)@.burn_spec(caller, amount),
    {
        let balance = self.balance_of(caller);
        if balance < amount {
            return Err(TokenError::InsufficientBalance);
        }
        self.balances.insert(caller, balance - amount);
        Ok(Burn { from: caller, amount })
    }

    /// Balance of `owner`; 0 for an account never credited.
    pub fn balance_of(&self, owner: AccountId) -> (r: u128)
        requires
            self.wf(),
        ensures
            r == self@.balance(owner),
    {
        match self.balances.get(&owner) {
            Some(v) => v,
            None => 0,
        }
    }

    /// Move `amount` from `from` to `to`; `from` is known to hold it.
    fn move_balance(&mut self, from: AccountId, to: AccountId, amount: u128)
        requires
            old(self).wf(),
            old(self)@.balance(from) >= amount,
        ensures
            final(self).wf(),
            final(self)@ == old(self)@.move_balance(from, to, amount),
    {
        let from_balance = self.balance_of(from);
        self.balances.insert(from, from_balance - amount);
        let to_balance = self.balance_of(to);
        self.balances.insert(to, to_balance.saturating_add(amount));
    }

    /// Move `amount` of the caller's tokens to `to`.
    pub fn transfer(&mut self, caller: AccountId, to: AccountId, amount: u128) -> (r: Result<
        Transfer,
        TokenError,
    >)
        requires
            old(self).wf(),
        ensures
            final(self).wf(),
            (final(self)@, r) == old(self)@.transfer_spec(caller, to, amount),
    {
        match self.can_transfer(&caller, &to) {
            Err(e) => {
                return Err(e);
            },
            Ok(()) => {},
        }
        if self.balance_of(caller) < amount {
            return Err(TokenError::InsufficientBalance);
        }
        self.move_balance(caller, to, amount);
        Ok(Transfer { from: caller, to, amount })
    }

    /// Let `spender` move up to `amount` of the caller's tokens, replacing any
    /// earlier allowance. Never fails.
    pub fn approve(&mut self, caller: AccountId, spender: AccountId, amount: u128) -> (r: Result<
        Approval,
        TokenError,
    >)
        requires
            old(self).wf(),
        ensures
            final(self).wf(),
            (final(self)@, r) == old(self)@.approve_spec(caller, spender, amount),
    {
        self.allowances.insert(AllowanceKey { owner: caller, spender }, amount);
        Ok(Approval { owner: caller, spender, amount })
    }

    /// What `spender` may still move out of `owner`'s balance.
    pub fn allowance(&self, owner: AccountId, spender: AccountId) -> (r: u128)
        requires
            self.wf(),
        ensures
            r == self@.allowance(owner, spender),
    {
        match self.allowances.get(&AllowanceKey { owner, spender }) {
            Some(v) => v,
            None => 0,
        }
    }

    /// As spender `caller`, move `amount` from `from` to `to`, consuming
    /// allowance. The allowance is checked before the balance.
    pub fn transfer_from(
        &mut self,
        caller: AccountId,
        from: AccountId,
        to: AccountId,
        amount: u128,
    ) -> (r: Result<Transfer, TokenError>)
        requires
            old(self).wf(),
        ensures
            final(self).wf(),
            (final(self)@, r) == old(self)@.transfer_from_spec(caller, from, to, amount),
    {
        match self.can_transfer(&from, &to) {
            Err(e) => {
                return Err(e);
            },
            Ok(()) => {},
        }
        let allowance = self.allowance(from, caller);
        if allowance < amount {
            return Err(TokenError::AllowanceExceeded);
        }
        if self.balance_of(from) < amount {
            return Err(TokenError::InsufficientBalance);
        }
        self.move_balance(from, to, amount);
        self.allowances.insert(AllowanceKey { owner: from, spender: caller }, allowance - amount);
        Ok(Transfer { from, to, amount })
    }

    /// Pause or resume all transfers; only the owner may.
    pub fn set_paused(&mut self, caller: AccountId, state: bool) -> (r: Result<(), TokenError>)
        requires
            old(self).wf(),
        ensures
            final(self).wf(),
            (final(self)@, r) == old(self)@.set_paused_spec(caller, state),
    {
        if !caller.same(&self.owner) {
            return Err(TokenError::Unauthorized);
        }
        self.paused = state;
        Ok(())
    }

    /// Add `account` to the blacklist or take it off; only the owner may.
    pub fn set_blacklist(&mut self, caller: AccountId, account: AccountId, state: bool) -> (r:
        Result<(), TokenError>)
        requires
            old(self).wf(),
        ensures
            final(self).wf(),
            (final(self)@, r) == old(self)@.set_blacklist_spec(caller, account, state),
    {
        if !caller.same(&self.owner) {
            return Err(TokenError::Unauthorized);
        }
        self.blacklist.insert(account, state);
        Ok(())
    }

    /// Transfer `amounts[i]` to `recipients[i]` from the caller, in order,
    /// appending an event to `events` for each transfer made. The first
    /// failing transfer stops the batch and its error is returned; the
    /// transfers before it stay made.
    pub fn batch_transfer(
        &mut self,
        caller: AccountId,
        recipients: Vec<AccountId>,
        amounts: Vec<u128>,
        events: &mut Vec<Transfer>,
    ) -> (r: Result<(), TokenError>)
        requires
            old(self).wf(),
        ensures
            final(self).wf(),
            ({
                let (s, evs, res) = old(self)@.batch_spec(caller, recipients@, amounts@);
                &&& final(self)@ == s
                &&& final(events)@ == old(events)@ + evs
                &&& r == res
            }),
    {
        let ghost s0 = self@;
        let ghost ev0 = events@;
        if recipients.len() != amounts.len() {
            proof {
                assert(events@ == ev0 + Seq::<Transfer>::empty());
            }
            return Err(TokenError::LengthMismatch);
        }
        let mut i: usize = 0;
        while i < recipients.len()
            invariant
                self.wf(),
                s0 == old(self)@,
                ev0 == old(events)@,
                recipients@.len() == amounts@.len(),
                0 <= i <= recipients@.len(),
                ({
                    let (s, evs, res) = s0.batch_prefix(caller, recipients@, amounts@, i as nat);
                    &&& self@ == s
                    &&& events@ == ev0 + evs
                    &&& res is Ok
                }),
            decreases recipients@.len() - i,
        {
            let ghost evs = s0.batch_prefix(caller, recipients@, amounts@, i as nat).1;
            match self.transfer(caller, recipients[i], amounts[i]) {
                Ok(e) => {
                    events.push(e);
                    proof {
                        assert(events@ == ev0 + evs.push(e));
                    }
                },
                Err(e) => {
                    proof {
                        let p = s0.batch_prefix(caller, recipients@, amounts@, (i + 1) as nat);
                        assert(p.0 == self@ && p.1 == evs && p.2 == Err::<(), TokenError>(e));
                        s0.lemma_batch_prefix_stops(
                            caller,
                            recipients@,
                            amounts@,
                            (i + 1) as nat,
                            recipients@.len(),
                        );
                    }
                    return Err(e);
                },
            }
            i = i + 1;
        }
        Ok(())
    }
}

} // verus!
