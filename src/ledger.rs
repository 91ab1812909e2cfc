//! The ledger: balances, allowances and the operations that move units.

use vstd::prelude::*;

use crate::account::{AccountId, AllowanceKey};
use crate::table::Table;

verus! {

/// An amount of token units.
pub type Balance = u128;

/// Why a transfer was refused. A refused transfer changes nothing.
#[derive(Clone, Copy, Debug, PartialEq, Eq, Structural)]
pub enum Error {
    /// Returned if not enough balance to fulfill a request is available.
    InsufficientBalance,
    /// Returned if not enough allowance to fulfill a request is available.
    InsufficientAllowance,
}

/// The notification that a successful transfer hands back to the host.
#[derive(Clone, Copy, Debug, PartialEq, Eq)]
pub struct Transfer {
    pub from: Option<AccountId>,
    pub to: Option<AccountId>,
    pub value: Balance,
}

/// A fungible-token ledger with a fixed total supply.
pub struct Erc20 {
    name: String,
    owner: AccountId,
    total_supply: Balance,
    balances: Table<AccountId>,
    allowances: Table<AllowanceKey>,
}

impl Erc20 {
    /// Both tables are well formed and the balances add up to the supply.
    pub closed spec fn wf(&self) -> bool {
        &&& self.balances.wf()
        &&& self.allowances.wf()
        &&& self.balances.total() == self.total_supply
    }

    /// The display name.
    pub closed spec fn name_spec(&self) -> Seq<char> {
        self.name@
    }

    /// The total supply.
    pub closed spec fn supply(&self) -> nat {
        self.total_supply as nat
    }

    /// The account that created the ledger.
    pub closed spec fn owner_spec(&self) -> Seq<u8> {
        self.owner@
    }

    /// The balance of account `a`; zero for an account never credited.
    pub closed spec fn balance(&self, a: Seq<u8>) -> nat {
        self.balances.amount(a)
    }

    /// What `spender` may still move out of `owner`'s balance.
    pub closed spec fn allowance_spec(&self, owner: Seq<u8>, spender: Seq<u8>) -> nat {
        self.allowances.amount((owner, spender))
    }

    /// The sum of all balances.
    pub closed spec fn balance_sum(&self) -> nat {
        self.balances.total()
    }
}

/// `a` and `b` have the same name, supply and owner.
pub open spec fn same_metadata(a: Erc20, b: Erc20) -> bool {
    &&& a.name_spec() == b.name_spec()
    &&& a.supply() == b.supply()
    &&& a.owner_spec() == b.owner_spec()
}

/// `a` and `b` hold the same balances.
pub open spec fn same_balances(a: Erc20, b: Erc20) -> bool {
    forall|x: Seq<u8>| #[trigger] a.balance(x) == b.balance(x)
}

/// `a` and `b` hold the same allowances.
pub open spec fn same_allowances(a: Erc20, b: Erc20) -> bool {
    forall|o: Seq<u8>, s: Seq<u8>| #[trigger] a.allowance_spec(o, s) == b.allowance_spec(o, s)
}

/// The balance of `x` once `value` units have moved from `from` to `to`.
pub open spec fn moved_balance(
    before: Erc20,
    from: Seq<u8>,
    to: Seq<u8>,
    value: nat,
    x: Seq<u8>,
) -> nat {
    if x == from && x == to {
        before.balance(x)
    } else if x == from {
        (before.balance(x) - value) as nat
    } else if x == to {
        before.balance(x) + value
    } else {
        before.balance(x)
    }
}

/// `after` is `before` with `value` units moved from `from` to `to`.
pub open spec fn moved(before: Erc20, after: Erc20, from: Seq<u8>, to: Seq<u8>, value: nat) -> bool {
    &&& same_metadata(before, after)
    &&& forall|x: Seq<u8>| #[trigger] after.balance(x) == moved_balance(before, from, to, value, x)
}

/// What a direct transfer of `value` from `from` to `to` does: it is refused,
/// changing nothing, when `from` holds less than `value`; else the units move
/// and the notification names both accounts.
pub open spec fn transfer_outcome(
    before: Erc20,
    after: Erc20,
    from: AccountId,
    to: AccountId,
    value: Balance,
    r: Result<Transfer, Error>,
) -> bool {
    if before.balance(from@) < value {
        &&& r == Err::<Transfer, Error>(Error::InsufficientBalance)
        &&& after == before
    } else {
        &&& r == Ok::<Transfer, Error>(Transfer { from: Some(from), to: Some(to), value })
        &&& moved(before, after, from@, to@, value as nat)
        &&& same_allowances(before, after)
    }
}

/// What `approve` does: the allowance of `spender` on `owner` becomes
/// `value`, whatever it was, and nothing else changes.
pub open spec fn approve_outcome(
    before: Erc20,
    after: Erc20,
    owner: AccountId,
    spender: AccountId,
    value: Balance,
) -> bool {
    &&& same_metadata(before, after)
    &&& same_balances(before, after)
    &&& after.allowance_spec(owner@, spender@) == value
    &&& forall|o: Seq<u8>, s: Seq<u8>|
        (o, s) != (owner@, spender@) ==> #[trigger] after.allowance_spec(o, s)
            == before.allowance_spec(o, s)
}

/// What a transfer by `spender` out of `from` on its allowance does: refused
/// for want of balance first, then for want of allowance, changing nothing;
/// else the units move and the allowance shrinks by `value`.
pub open spec fn transfer_from_outcome(
    before: Erc20,
    after: Erc20,
    spender: AccountId,
    from: AccountId,
    to: AccountId,
    value: Balance,
    r: Result<Transfer, Error>,
) -> bool {
    if before.balance(from@) < value {
        &&& r == Err::<Transfer, Error>(Error::InsufficientBalance)
        &&& after == before
    } else if before.allowance_spec(from@, spender@) < value {
        &&& r == Err::<Transfer, Error>(Error::InsufficientAllowance)
        &&& after == before
    } else {
        &&& r == Ok::<Transfer, Error>(Transfer { from: Some(from), to: Some(to), value })
        &&& moved(before, after, from@, to@, value as nat)
        &&& after.allowance_spec(from@, spender@) == before.allowance_spec(from@, spender@)
            - value
        &&& forall|o: Seq<u8>, s: Seq<u8>|
            (o, s) != (from@, spender@) ==> #[trigger] after.allowance_spec(o, s)
                == before.allowance_spec(o, s)
    }
}

impl Erc20 {
    /// Creates a ledger named `token_name` whose whole supply is credited to
    /// `caller`, the creating account, with no allowances.
    pub fn new(caller: AccountId, token_name: String, total_supply: Balance) -> (r: Self)
        ensures
            r.wf(),
            r.name_spec() == token_name@,
            r.supply() == total_supply,
            r.owner_spec() == caller@,
            r.balance(caller@) == total_supply,
            forall|x: Seq<u8>| x != caller@ ==> #[trigger] r.balance(x) == 0,
            forall|o: Seq<u8>, s: Seq<u8>| #[trigger] r.allowance_spec(o, s) == 0,
    {
        let mut balances = Table::new();
        balances.set(caller, total_supply);
        Erc20 {
            name: token_name,
            owner: caller,
            total_supply,
            balances,
            allowances: Table::new(),
        }
    }

    /// The display name.
    pub fn name(&self) -> (r: String)
        ensures
            r@ == self.name_spec(),
    {
        self.name.clone()
    }

    /// The total supply.
    pub fn total_supply(&self) -> (r: Balance)
        ensures
            r == self.supply(),
    {
        self.total_supply
    }

    /// The account that created the ledger.
    pub fn owner(&self) -> (r: AccountId)
        ensures
            r@ == self.owner_spec(),
    {
        self.owner
    }

    /// The balance of `user`; zero for an account never credited.
    pub fn balance_of(&self, user: AccountId) -> (r: Balance)
        requires
            self.wf(),
        ensures
            r == self.balance(user@),
    {
        self.balances.get(&user)
    }

    /// What `spender` may still move out of `owner`'s balance.
    pub fn allowance(&self, owner: AccountId, spender: AccountId) -> (r: Balance)
        requires
            self.wf(),
        ensures
            r == self.allowance_spec(owner@, spender@),
    {
        self.allowances.get(&AllowanceKey { owner, spender })
    }

    /// Moves `value` units from `caller` to `to`.
    pub fn transfer(&mut self, caller: AccountId, to: AccountId, value: Balance) -> (r: Result<
        Transfer,
        Error,
    >)
        requires
            old(self).wf(),
        ensures
            final(self).wf(),
            transfer_outcome(*old(self), *final(self), caller, to, value, r),
    {
        self.transfer_from_to(&caller, &to, value)
    }

    /// Moves `value` units from `from` to `to`, checking `from`'s balance
    /// before anything changes.
    fn transfer_from_to(&mut self, from: &AccountId, to: &AccountId, value: Balance) -> (r: Result<
        Transfer,
        Error,
    >)
        requires
            old(self).wf(),
        ensures
            final(self).wf(),
            transfer_outcome(*old(self), *final(self), *from, *to, value, r),
    {
        let from_balance = self.balances.get(from);
        if from_balance < value {
            return Err(Error::InsufficientBalance);
        }
        self.balances.set(*from, from_balance - value);
        let to_balance = self.balances.get(to);
        proof {
            self.balances.lemma_bounded_by_total(to@, to@);
        }
        self.balances.set(*to, to_balance + value);
        Ok(Transfer { from: Some(*from), to: Some(*to), value })
    }

    /// Sets what `spender` may move out of `caller`'s balance to `value`,
    /// replacing any earlier allowance.
    pub fn approve(&mut self, caller: AccountId, spender: AccountId, value: Balance)
        requires
            old(self).wf(),
        ensures
            final(self).wf(),
            approve_outcome(*old(self), *final(self), caller, spender, value),
    {
        self.allowances.set(AllowanceKey { owner: caller, spender }, value);
    }

    /// Moves `value` units from `from` to `to` on the allowance that `from`
    /// gave `caller`, and lowers that allowance by `value`.
    pub fn transfer_from(
        &mut self,
        caller: AccountId,
        from: AccountId,
        to: AccountId,
        value: Balance,
    ) -> (r: Result<Transfer, Error>)
        requires
            old(self).wf(),
        ensures
            final(self).wf(),
            transfer_from_outcome(*old(self), *final(self), caller, from, to, value, r),
    {
        let from_balance = self.balances.get(&from);
        if from_balance < value {
            return Err(Error::InsufficientBalance);
        }
        let key = AllowanceKey { owner: from, spender: caller };
        let allowed = self.allowances.get(&key);
        if allowed < value {
            return Err(Error::InsufficientAllowance);
        }
        let r = self.transfer_from_to(&from, &to, value);
        let ghost mid = *self;
        self.allowances.set(key, allowed - value);
        assert forall|x: Seq<u8>| #[trigger] self.balance(x) == moved_balance(
            *old(self),
            from@,
            to@,
            value as nat,
            x,
        ) by {
            assert(mid.balance(x) == self.balance(x));
        }
        r
    }
}

/// Conservation: in every well-formed ledger, which is every ledger that
/// construction and the operations above produce, the balances add up to the
/// total supply.
pub proof fn lemma_conservation(l: &Erc20)
    requires
        l.wf(),
    ensures
        l.balance_sum() == l.supply(),
{
}

/// No balance exceeds the total supply, so every balance is a non-negative
/// amount that the balance type can hold.
pub proof fn lemma_balance_fits(l: &Erc20, x: Seq<u8>)
    requires
        l.wf(),
    ensures
        0 <= l.balance(x) <= l.supply(),
        l.supply() <= u128::MAX,
{
    l.balances.lemma_bounded_by_total(x, x);
}

/// A transfer from an account to itself of no more than it holds succeeds
/// and leaves every balance as it was.
pub proof fn lemma_self_transfer(
    before: Erc20,
    after: Erc20,
    a: AccountId,
    k: Balance,
    r: Result<Transfer, Error>,
)
    requires
        before.wf(),
        k <= before.balance(a@),
        transfer_outcome(before, after, a, a, k, r),
    ensures
        r.is_ok(),
        after.balance(a@) == before.balance(a@),
        same_balances(before, after),
{
    assert forall|x: Seq<u8>| #[trigger] after.balance(x) == before.balance(x) by {
        assert(after.balance(x) == moved_balance(before, a@, a@, k as nat, x));
    }
}

/// A second `approve` for the same pair replaces the first allowance rather
/// than adding to it.
pub proof fn lemma_approve_overwrites(
    l0: Erc20,
    l1: Erc20,
    l2: Erc20,
    owner: AccountId,
    spender: AccountId,
    v1: Balance,
    v2: Balance,
)
    requires
        approve_outcome(l0, l1, owner, spender, v1),
        approve_outcome(l1, l2, owner, spender, v2),
    ensures
        l1.allowance_spec(owner@, spender@) == v1,
        l2.allowance_spec(owner@, spender@) == v2,
{
}

} // verus!
