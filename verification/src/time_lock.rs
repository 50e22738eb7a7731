//! Funds released by a marker: a wallet that opens at a timestamp.
//!
//! Whether the wallet is open is not stored anywhere. It is decided anew at
//! every withdrawal, from the marker that the caller supplies.

use vstd::prelude::*;

verus! {

/// A wallet whose funds can only be withdrawn once `unlock_timestamp` has
/// been reached.
pub struct TimeLockedWallet {
    /// The funds held.
    pub balance: u64,
    /// The first marker at which the funds may leave.
    pub unlock_timestamp: u64,
}

impl TimeLockedWallet {
    /// Whether the wallet is open at `current_timestamp`.
    pub open spec fn unlocked_at(&self, current_timestamp: u64) -> bool {
        current_timestamp >= self.unlock_timestamp
    }

    /// The wallet after `amount` has been deposited.
    pub open spec fn after_deposit(self, amount: u64) -> TimeLockedWallet
        recommends
            self.balance + amount <= u64::MAX,
    {
        TimeLockedWallet {
            balance: (self.balance + amount) as u64,
            unlock_timestamp: self.unlock_timestamp,
        }
    }

    /// What a withdrawal at `current_timestamp` hands out: the whole
    /// balance once the wallet is open and holds funds, and nothing while
    /// it is locked or empty. An empty wallet never pays out an amount of
    /// zero.
    pub open spec fn withdrawal(&self, current_timestamp: u64) -> Option<u64> {
        if self.unlocked_at(current_timestamp) && self.balance > 0 {
            Some(self.balance)
        } else {
            None
        }
    }

    /// The wallet after a withdrawal at `current_timestamp`: drained once
    /// open, untouched before.
    pub open spec fn after_withdraw(self, current_timestamp: u64) -> TimeLockedWallet {
        if self.unlocked_at(current_timestamp) {
            TimeLockedWallet { balance: 0, unlock_timestamp: self.unlock_timestamp }
        } else {
            self
        }
    }

    /// Creates an empty wallet locked until `unlock_timestamp`.
    pub fn new(unlock_timestamp: u64) -> (r: Self)
        ensures
            r.balance == 0,
            r.unlock_timestamp == unlock_timestamp,
    {
        TimeLockedWallet { balance: 0, unlock_timestamp }
    }

    /// Deposits `amount`. Deposits are taken whether the wallet is open or
    /// not, and never move the lock.
    pub fn deposit(&mut self, amount: u64)
        requires
            old(self).balance + amount <= u64::MAX,
        ensures
            *final(self) == old(self).after_deposit(amount),
            final(self).balance == old(self).balance + amount,
            final(self).unlock_timestamp == old(self).unlock_timestamp,
    {
        self.balance = self.balance + amount;
    }

    /// Withdraws the whole balance if the lock has expired, and leaves the
    /// wallet empty in the same step. Before that nothing is handed out and
    /// the balance stays. From an empty wallet nothing is handed out either:
    /// the answer is `None`, never `Some(0)`.
    pub fn withdraw(&mut self, current_timestamp: u64) -> (r: Option<u64>)
        ensures
            r == old(self).withdrawal(current_timestamp),
            *final(self) == old(self).after_withdraw(current_timestamp),
            r.is_some() <==> current_timestamp >= old(self).unlock_timestamp && old(self).balance
                > 0,
            r matches Some(amount) ==> amount == old(self).balance && final(self).balance == 0,
            r.is_none() ==> *final(self) == *old(self),
    {
        if current_timestamp < self.unlock_timestamp || self.balance == 0 {
            return None;
        }
        let amount = self.balance;
        self.balance = 0;
        Some(amount)
    }
}

/// A deposit is paid out whole, and once: the first withdrawal at the release
/// marker hands out everything the wallet held together with the deposit and
/// leaves the wallet empty. A withdrawal after that, at any marker `later`,
/// finds no funds and hands out nothing.
pub proof fn lemma_deposit_paid_out_once(wallet: TimeLockedWallet, amount: u64, later: u64)
    requires
        wallet.balance + amount <= u64::MAX,
    ensures
        wallet.balance + amount > 0 ==> wallet.after_deposit(amount).withdrawal(
            wallet.unlock_timestamp,
        ) == Some((wallet.balance + amount) as u64),
        wallet.balance + amount == 0 ==> wallet.after_deposit(amount).withdrawal(
            wallet.unlock_timestamp,
        ).is_none(),
        wallet.after_deposit(amount).after_withdraw(wallet.unlock_timestamp).balance == 0,
        wallet.after_deposit(amount).after_withdraw(wallet.unlock_timestamp).withdrawal(
            later,
        ).is_none(),
{
}

/// While the wallet is locked a withdrawal hands out nothing and changes
/// nothing, so the funds are still there when the lock expires.
pub proof fn lemma_locked_withdrawal_keeps_funds(wallet: TimeLockedWallet, early: u64)
    requires
        early < wallet.unlock_timestamp,
    ensures
        wallet.withdrawal(early).is_none(),
        wallet.after_withdraw(early) == wallet,
{
}

} // verus!
