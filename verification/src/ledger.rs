//! The escrow-capable balance ledger: free and reserved balances, with
//! reserve, release, deposit and policy-checked transfers.

use vstd::prelude::*;

use std::collections::HashMap;

use crate::errors::Error;
use crate::types::AccountId;

verus! {

/// One account's balances: `free` is spendable, `reserved` is held in
/// escrow until released.
#[derive(Clone, Copy, Debug, PartialEq, Eq, Structural)]
pub struct AccountState {
    pub free: u64,
    pub reserved: u64,
}

/// The existence policy of a transfer: `KeepAlive` refuses to drain the
/// source account below the ledger's minimum balance, `AllowDeath` does not
/// care.
#[derive(Clone, Copy, Debug, PartialEq, Eq, Structural)]
pub enum ExistenceRequirement {
    KeepAlive,
    AllowDeath,
}

/// The escrow-capable balance store. An account that is absent from the map
/// holds zero free and zero reserved balance; dust left by `AllowDeath`
/// transfers is kept rather than reaped.
pub struct Ledger {
    /// The least total balance a `KeepAlive` transfer may leave its source
    /// account with (the chain's existential deposit).
    pub min_balance: u64,
    pub accounts: HashMap<AccountId, AccountState>,
}

impl View for Ledger {
    type V = Map<AccountId, AccountState>;

    open spec fn view(&self) -> Map<AccountId, AccountState> {
        self.accounts@
    }
}

/// The balances of `who` in ledger state `m`, zero when absent.
pub open spec fn account_of(m: Map<AccountId, AccountState>, who: AccountId) -> AccountState {
    if m.contains_key(who) {
        m[who]
    } else {
        AccountState { free: 0, reserved: 0 }
    }
}

/// The free balance of `who` in ledger state `m`.
pub open spec fn free_of(m: Map<AccountId, AccountState>, who: AccountId) -> u64 {
    account_of(m, who).free
}

/// The reserved balance of `who` in ledger state `m`.
pub open spec fn reserved_of(m: Map<AccountId, AccountState>, who: AccountId) -> u64 {
    account_of(m, who).reserved
}

/// Well-formedness of a ledger state: every account's total balance fits in
/// the balance type, so moving funds between `free` and `reserved` can
/// never overflow.
pub open spec fn ledger_wf(m: Map<AccountId, AccountState>) -> bool {
    forall|a: AccountId| #[trigger]
        m.contains_key(a) ==> m[a].free + m[a].reserved <= u64::MAX
}

/// What [`Ledger::deposit_free`] does to the ledger state: credits `amount`
/// to `who`'s free balance, or fails with `NumOverflow`.
pub open spec fn spec_deposit(m: Map<AccountId, AccountState>, who: AccountId, amount: u64) -> Result<
    Map<AccountId, AccountState>,
    Error,
> {
    let a = account_of(m, who);
    if a.free + a.reserved + amount > u64::MAX {
        Err(Error::NumOverflow)
    } else {
        Ok(m.insert(who, AccountState { free: (a.free + amount) as u64, reserved: a.reserved }))
    }
}

/// What [`Ledger::reserve`] does to the ledger state: moves `amount` from
/// `who`'s free balance into escrow, or fails with `InsufficientBalance`.
pub open spec fn spec_reserve(m: Map<AccountId, AccountState>, who: AccountId, amount: u64) -> Result<
    Map<AccountId, AccountState>,
    Error,
> {
    let a = account_of(m, who);
    if a.free >= amount {
        Ok(
            m.insert(
                who,
                AccountState {
                    free: (a.free - amount) as u64,
                    reserved: (a.reserved + amount) as u64,
                },
            ),
        )
    } else {
        Err(Error::InsufficientBalance)
    }
}

/// What [`Ledger::unreserve`] does to the ledger state: releases from
/// escrow the smaller of `amount` and what is actually reserved. It never
/// fails.
pub open spec fn spec_unreserve(m: Map<AccountId, AccountState>, who: AccountId, amount: u64) -> Map<
    AccountId,
    AccountState,
> {
    if m.contains_key(who) {
        let a = m[who];
        let released: u64 = if amount <= a.reserved {
            amount
        } else {
            a.reserved
        };
        m.insert(
            who,
            AccountState { free: (a.free + released) as u64, reserved: (a.reserved - released) as u64 },
        )
    } else {
        m
    }
}

/// What [`Ledger::transfer`] does to the ledger state: moves `amount` of
/// free balance from `from` to `to`. It fails with `InsufficientBalance`
/// when `from` cannot cover the amount, with `CanNotTransferCurrency` when
/// a `KeepAlive` transfer would leave `from` below `min_balance` in total,
/// and with `NumOverflow` when `to`'s total balance would no longer fit. A
/// transfer to oneself moves nothing.
pub open spec fn spec_transfer(
    m: Map<AccountId, AccountState>,
    min_balance: u64,
    from: AccountId,
    to: AccountId,
    amount: u64,
    req: ExistenceRequirement,
) -> Result<Map<AccountId, AccountState>, Error> {
    let fa = account_of(m, from);
    let ta = account_of(m, to);
    if fa.free < amount {
        Err(Error::InsufficientBalance)
    } else if from == to {
        Ok(m)
    } else if req == ExistenceRequirement::KeepAlive && fa.free - amount + fa.reserved
        < min_balance {
        Err(Error::CanNotTransferCurrency)
    } else if ta.free + ta.reserved + amount > u64::MAX {
        Err(Error::NumOverflow)
    } else {
        Ok(
            m.insert(from, AccountState { free: (fa.free - amount) as u64, reserved: fa.reserved })
                .insert(to, AccountState { free: (ta.free + amount) as u64, reserved: ta.reserved }),
        )
    }
}

impl Ledger {
    /// Whether this ledger is well formed; established by [`Ledger::new`]
    /// and preserved by every operation.
    pub open spec fn wf(&self) -> bool {
        ledger_wf(self@)
    }

    /// An empty ledger whose `KeepAlive` transfers keep accounts at or
    /// above `min_balance`.
    pub fn new(min_balance: u64) -> (r: Ledger)
        ensures
            r@ == Map::<AccountId, AccountState>::empty(),
            r.min_balance == min_balance,
            r.wf(),
    {
        Ledger { min_balance, accounts: HashMap::new() }
    }

    /// An identical copy of this ledger, used to roll multi-step operations
    /// back when a later step fails.
    pub fn snapshot(&self) -> (r: Ledger)
        ensures
            r@ == self@,
            r.min_balance == self.min_balance,
    {
        Ledger { min_balance: self.min_balance, accounts: self.accounts.clone() }
    }

    /// Both balances of `who`, zero when the account is unknown.
    pub fn account(&self, who: AccountId) -> (r: AccountState)
        ensures
            r == account_of(self@, who),
    {
        match self.accounts.get(&who) {
            Some(st) => *st,
            None => AccountState { free: 0, reserved: 0 },
        }
    }

    /// The free balance of `who`.
    pub fn free_balance(&self, who: AccountId) -> (r: u64)
        ensures
            r == free_of(self@, who),
    {
        self.account(who).free
    }

    /// The reserved balance of `who`.
    pub fn reserved_balance(&self, who: AccountId) -> (r: u64)
        ensures
            r == reserved_of(self@, who),
    {
        self.account(who).reserved
    }

    /// Credits `amount` to `who`'s free balance.
    pub fn deposit_free(&mut self, who: AccountId, amount: u64) -> (r: Result<(), Error>)
        requires
            old(self).wf(),
        ensures
            final(self).wf(),
            final(self).min_balance == old(self).min_balance,
            match spec_deposit(old(self)@, who, amount) {
                Ok(m2) => r is Ok && final(self)@ == m2,
                Err(e) => r == Err::<(), Error>(e) && final(self)@ == old(self)@,
            },
    {
        let a = self.account(who);
        if amount as u128 > u64::MAX as u128 - a.free as u128 - a.reserved as u128 {
            return Err(Error::NumOverflow);
        }
        let st = AccountState { free: a.free + amount, reserved: a.reserved };
        self.accounts.insert(who, st);
        Ok(())
    }

    /// Moves `amount` from `who`'s free balance into escrow.
    pub fn reserve(&mut self, who: AccountId, amount: u64) -> (r: Result<(), Error>)
        requires
            old(self).wf(),
        ensures
            final(self).wf(),
            final(self).min_balance == old(self).min_balance,
            match spec_reserve(old(self)@, who, amount) {
                Ok(m2) => r is Ok && final(self)@ == m2,
                Err(e) => r == Err::<(), Error>(e) && final(self)@ == old(self)@,
            },
    {
        let a = self.account(who);
        if a.free < amount {
            return Err(Error::InsufficientBalance);
        }
        let st = AccountState { free: a.free - amount, reserved: a.reserved + amount };
        self.accounts.insert(who, st);
        Ok(())
    }

    /// Releases up to `amount` of `who`'s escrow back into free balance;
    /// releasing more than is reserved just releases everything.
    pub fn unreserve(&mut self, who: AccountId, amount: u64)
        requires
            old(self).wf(),
        ensures
            final(self).wf(),
            final(self).min_balance == old(self).min_balance,
            final(self)@ == spec_unreserve(old(self)@, who, amount),
    {
        let a = match self.accounts.get(&who) {
            Some(st) => *st,
            None => {
                return ;
            },
        };
        let released: u64 = if amount <= a.reserved {
            amount
        } else {
            a.reserved
        };
        let st = AccountState { free: a.free + released, reserved: a.reserved - released };
        self.accounts.insert(who, st);
    }

    /// Moves `amount` of free balance from `from` to `to` under the given
    /// existence policy.
    pub fn transfer(
        &mut self,
        from: AccountId,
        to: AccountId,
        amount: u64,
        req: ExistenceRequirement,
    ) -> (r: Result<(), Error>)
        requires
            old(self).wf(),
        ensures
            final(self).wf(),
            final(self).min_balance == old(self).min_balance,
            match spec_transfer(old(self)@, old(self).min_balance, from, to, amount, req) {
                Ok(m2) => r is Ok && final(self)@ == m2,
                Err(e) => r == Err::<(), Error>(e) && final(self)@ == old(self)@,
            },
    {
        let fa = self.account(from);
        let ta = self.account(to);
        if fa.free < amount {
            return Err(Error::InsufficientBalance);
        }
        if from == to {
            return Ok(());
        }
        let keep_alive = match req {
            ExistenceRequirement::KeepAlive => true,
            ExistenceRequirement::AllowDeath => false,
        };
        if keep_alive && fa.free - amount < min_balance_gap(self.min_balance, fa.reserved) {
            return Err(Error::CanNotTransferCurrency);
        }
        if ta.free as u128 + ta.reserved as u128 + amount as u128 > u64::MAX as u128 {
            return Err(Error::NumOverflow);
        }
        self.accounts.insert(from, AccountState { free: fa.free - amount, reserved: fa.reserved });
        self.accounts.insert(to, AccountState { free: ta.free + amount, reserved: ta.reserved });
        Ok(())
    }
}

/// How much free balance a `KeepAlive` source must retain, given its
/// reserved balance: `min_balance - reserved`, floored at zero.
pub fn min_balance_gap(min_balance: u64, reserved: u64) -> (r: u64)
    ensures
        r == if reserved >= min_balance {
            0int
        } else {
            min_balance - reserved
        },
{
    if reserved >= min_balance {
        0
    } else {
        min_balance - reserved
    }
}

} // verus!
