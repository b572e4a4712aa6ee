use vstd::prelude::*;
use crate::account::AccountId;
use crate::state::{sat_add, TokenError, TokenState};

verus! {

/// Balance of `a` in a balance map; 0 where there is no entry.
pub open spec fn balance_in(m: Map<AccountId, u128>, a: AccountId) -> int {
    if m.contains_key(a) {
        m[a] as int
    } else {
        0
    }
}

/// Sum of the balances of the accounts in `s`.
pub open spec fn sum_balances(m: Map<AccountId, u128>, s: Set<AccountId>) -> int
    decreases s.len(),
    when s.finite()
{
    if s.len() == 0 {
        0
    } else {
        let k = s.choose();
        balance_in(m, k) + sum_balances(m, s.remove(k))
    }
}

/// Sum of all balances.
pub open spec fn total_supply(s: TokenState) -> int {
    sum_balances(s.balances, s.balances.dom())
}

proof fn lemma_sum_remove(m: Map<AccountId, u128>, s: Set<AccountId>, x: AccountId)
    requires
        s.finite(),
        s.contains(x),
    ensures
        sum_balances(m, s) == balance_in(m, x) + sum_balances(m, s.remove(x)),
    decreases s.len(),
{
    assert(s.len() != 0);
    let k = s.choose();
    if k != x {
        lemma_sum_remove(m, s.remove(k), x);
        lemma_sum_remove(m, s.remove(x), k);
        assert(s.remove(k).remove(x) =~= s.remove(x).remove(k));
    }
}

proof fn lemma_sum_agree(m1: Map<AccountId, u128>, m2: Map<AccountId, u128>, s: Set<AccountId>)
    requires
        s.finite(),
        forall|y: AccountId| #[trigger] s.contains(y) ==> balance_in(m1, y) == balance_in(m2, y),
    ensures
        sum_balances(m1, s) == sum_balances(m2, s),
    decreases s.len(),
{
    if s.len() != 0 {
        let k = s.choose();
        lemma_sum_agree(m1, m2, s.remove(k));
    }
}

/// Setting one balance changes the total by the difference.
proof fn lemma_total_insert(m: Map<AccountId, u128>, k: AccountId, v: u128)
    requires
        m.dom().finite(),
    ensures
        sum_balances(m.insert(k, v), m.insert(k, v).dom()) == sum_balances(m, m.dom())
            - balance_in(m, k) + v,
{
    let m2 = m.insert(k, v);
    lemma_sum_remove(m2, m2.dom(), k);
    lemma_sum_agree(m2, m, m2.dom().remove(k));
    if m.contains_key(k) {
        lemma_sum_remove(m, m.dom(), k);
        assert(m2.dom().remove(k) =~= m.dom().remove(k));
    } else {
        assert(m2.dom().remove(k) =~= m.dom());
    }
}

proof fn lemma_move_balance(s: TokenState, from: AccountId, to: AccountId, n: u128)
    requires
        s.valid(),
        from != to,
        s.balance(from) >= n,
        s.balance(to) + n <= u128::MAX,
    ensures
        s.move_balance(from, to, n).balance(from) == s.balance(from) - n,
        s.move_balance(from, to, n).balance(to) == s.balance(to) + n,
        forall|c: AccountId|
            c != from && c != to ==> #[trigger] s.move_balance(from, to, n).balance(c)
                == s.balance(c),
        total_supply(s.move_balance(from, to, n)) == total_supply(s),
{
    let s1 = s.with_balance(from, (s.balance(from) - n) as u128);
    lemma_total_insert(s.balances, from, (s.balance(from) - n) as u128);
    lemma_total_insert(s1.balances, to, (s1.balance(to) + n) as u128);
}

/// Issuing `n` to `a` as the owner succeeds and raises `a`'s balance by `n`,
/// saturating at `u128::MAX`; no other balance changes.
pub proof fn mint_by_owner_credits(s: TokenState, a: AccountId, n: u128)
    requires
        s.valid(),
    ensures
        ({
            let (s2, r) = s.mint_spec(s.owner, a, n);
            &&& r is Ok
            &&& s2.balance(a) == sat_add(s.balance(a), n)
            &&& forall|b: AccountId| b != a ==> #[trigger] s2.balance(b) == s.balance(b)
        }),
{
}

/// A successful transfer between two distinct accounts, where the recipient's
/// balance does not saturate, takes `n` from the sender, gives `n` to the
/// recipient, and keeps the total of all balances.
pub proof fn transfer_conserves_supply(s: TokenState, a: AccountId, b: AccountId, n: u128)
    requires
        s.valid(),
        a != b,
        s.balance(b) + n <= u128::MAX,
        s.transfer_spec(a, b, n).1 is Ok,
    ensures
        ({
            let s2 = s.transfer_spec(a, b, n).0;
            &&& s2.balance(a) == s.balance(a) - n
            &&& s2.balance(b) == s.balance(b) + n
            &&& total_supply(s2) == total_supply(s)
        }),
{
    lemma_move_balance(s, a, b, n);
}

/// A transfer of more than the sender holds, where neither pause nor blacklist
/// refuses it first, fails with `InsufficientBalance` and changes nothing.
pub proof fn transfer_over_balance_fails(s: TokenState, a: AccountId, b: AccountId, n: u128)
    requires
        !s.paused,
        !s.is_blacklisted(a),
        !s.is_blacklisted(b),
        s.balance(a) < n,
    ensures
        s.transfer_spec(a, b, n) == (s, Err::<crate::events::Transfer, TokenError>(
            TokenError::InsufficientBalance,
        )),
{
}

/// A second approval replaces the first: the allowance is the last amount,
/// not the sum.
pub proof fn approve_overwrites(s: TokenState, a: AccountId, c: AccountId, n1: u128, n2: u128)
    ensures
        s.approve_spec(a, c, n1).0.approve_spec(a, c, n2).0.allowance(a, c) == n2,
{
}

/// A spender's transfer that neither pause nor blacklist refuses, within
/// both the allowance and the balance, between distinct accounts and without
/// saturating the recipient, succeeds: the allowance drops by `n`, `n` moves from `a` to `b`,
/// and the total of all balances is kept.
pub proof fn transfer_from_moves(s: TokenState, c: AccountId, a: AccountId, b: AccountId, n: u128)
    requires
        s.valid(),
        a != b,
        s.transfer_check(a, b) is Ok,
        s.allowance(a, c) >= n,
        s.balance(a) >= n,
        s.balance(b) + n <= u128::MAX,
    ensures
        ({
            let (s2, r) = s.transfer_from_spec(c, a, b, n);
            &&& r is Ok
            &&& s2.allowance(a, c) == s.allowance(a, c) - n
            &&& s2.balance(a) == s.balance(a) - n
            &&& s2.balance(b) == s.balance(b) + n
            &&& total_supply(s2) == total_supply(s)
        }),
{
    lemma_move_balance(s, a, b, n);
}

/// A delegated transfer beyond the allowance, where neither pause nor
/// blacklist refuses it first, fails with `AllowanceExceeded` and changes no
/// balance.
pub proof fn transfer_from_over_allowance_fails(
    s: TokenState,
    c: AccountId,
    a: AccountId,
    b: AccountId,
    n: u128,
)
    requires
        !s.paused,
        !s.is_blacklisted(a),
        !s.is_blacklisted(b),
        s.allowance(a, c) < n,
    ensures
        s.transfer_from_spec(c, a, b, n) == (s, Err::<crate::events::Transfer, TokenError>(
            TokenError::AllowanceExceeded,
        )),
{
}

/// Issuing by anyone but the owner fails with `Unauthorized` and changes nothing.
pub proof fn mint_by_other_fails(s: TokenState, caller: AccountId, a: AccountId, n: u128)
    requires
        caller != s.owner,
    ensures
        s.mint_spec(caller, a, n) == (s, Err::<crate::events::Mint, TokenError>(
            TokenError::Unauthorized,
        )),
{
}

/// Once the owner pauses, every transfer and delegated transfer fails with
/// `Paused`, whatever the balances and allowances.
pub proof fn paused_blocks_transfers(
    s: TokenState,
    c: AccountId,
    a: AccountId,
    b: AccountId,
    n: u128,
)
    ensures
        ({
            let s1 = s.set_paused_spec(s.owner, true).0;
            &&& s1.transfer_spec(a, b, n).1 == Err::<crate::events::Transfer, TokenError>(
                TokenError::Paused,
            )
            &&& s1.transfer_from_spec(c, a, b, n).1 == Err::<crate::events::Transfer, TokenError>(
                TokenError::Paused,
            )
        }),
{
}

/// Once the owner blacklists `x` (transfers not being paused), every transfer
/// and delegated transfer with `x` as sender or recipient fails with
/// `Blacklisted`.
pub proof fn blacklist_blocks_transfers(
    s: TokenState,
    x: AccountId,
    y: AccountId,
    c: AccountId,
    n: u128,
)
    requires
        !s.paused,
    ensures
        ({
            let s1 = s.set_blacklist_spec(s.owner, x, true).0;
            let e = Err::<crate::events::Transfer, TokenError>(TokenError::Blacklisted);
            &&& s1.transfer_spec(x, y, n).1 == e
            &&& s1.transfer_spec(y, x, n).1 == e
            &&& s1.transfer_from_spec(c, x, y, n).1 == e
            &&& s1.transfer_from_spec(c, y, x, n).1 == e
        }),
{
}

/// Issuing changes the total of all balances by exactly what was credited.
pub proof fn mint_changes_supply_by_credit(s: TokenState, caller: AccountId, a: AccountId, n: u128)
    requires
        s.valid(),
    ensures
        ({
            let s2 = s.mint_spec(caller, a, n).0;
            total_supply(s2) == total_supply(s) + s2.balance(a) - s.balance(a)
        }),
{
    if caller == s.owner {
        lemma_total_insert(s.balances, a, sat_add(s.balance(a), n));
    }
}

/// A successful destruction lowers the total of all balances by the amount.
pub proof fn burn_reduces_supply(s: TokenState, caller: AccountId, n: u128)
    requires
        s.valid(),
        s.burn_spec(caller, n).1 is Ok,
    ensures
        total_supply(s.burn_spec(caller, n).0) == total_supply(s) - n,
{
    lemma_total_insert(s.balances, caller, (s.balance(caller) - n) as u128);
}

/// No operation changes the owner.
pub proof fn owner_is_fixed(
    s: TokenState,
    caller: AccountId,
    a: AccountId,
    b: AccountId,
    n: u128,
    flag: bool,
    recipients: Seq<AccountId>,
    amounts: Seq<u128>,
)
    ensures
        s.mint_spec(caller, a, n).0.owner == s.owner,
        s.burn_spec(caller, n).0.owner == s.owner,
        s.transfer_spec(caller, a, n).0.owner == s.owner,
        s.approve_spec(caller, a, n).0.owner == s.owner,
        s.transfer_from_spec(caller, a, b, n).0.owner == s.owner,
        s.set_paused_spec(caller, flag).0.owner == s.owner,
        s.set_blacklist_spec(caller, a, flag).0.owner == s.owner,
        s.batch_spec(caller, recipients, amounts).0.owner == s.owner,
{
    if recipients.len() == amounts.len() {
        lemma_batch_keeps_owner(s, caller, recipients, amounts, recipients.len());
    }
}

proof fn lemma_batch_keeps_owner(
    s: TokenState,
    caller: AccountId,
    recipients: Seq<AccountId>,
    amounts: Seq<u128>,
    n: nat,
)
    ensures
        s.batch_prefix(caller, recipients, amounts, n).0.owner == s.owner,
    decreases n,
{
    if n > 0 {
        lemma_batch_keeps_owner(s, caller, recipients, amounts, (n - 1) as nat);
    }
}

} // verus!
