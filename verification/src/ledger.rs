//! The shared coin ledger: two non-negative balances with saturating
//! arithmetic. Decrements saturate at zero; a side with zero coins has lost.

use vstd::prelude::*;

verus! {

/// Which player's balance an operation touches. `Mine` is the scripted
/// opponent who narrates the game; `Yours` is the human player.
#[derive(Copy, Clone, PartialEq, Eq, Structural, Debug)]
pub enum Side {
    Mine,
    Yours,
}

/// Two coin balances, one per side. Balances are unsigned, so they can
/// never go below zero; every subtraction saturates at zero.
#[derive(Copy, Clone, PartialEq, Eq, Structural, Debug)]
pub struct CoinLedger {
    pub my_coins: u32,
    pub your_coins: u32,
}

/// The side the operation does not touch.
pub open spec fn other_side(side: Side) -> Side {
    match side {
        Side::Mine => Side::Yours,
        Side::Yours => Side::Mine,
    }
}

/// `a + b`, saturating at the `u32` ceiling.
pub open spec fn sat_add(a: u32, b: u32) -> u32 {
    if a + b <= u32::MAX {
        (a + b) as u32
    } else {
        u32::MAX
    }
}

/// `a - b`, saturating at zero.
pub open spec fn sat_sub(a: u32, b: u32) -> u32 {
    if a >= b {
        (a - b) as u32
    } else {
        0u32
    }
}

#[verifier::when_used_as_spec(sat_add)]
pub fn add_saturating(a: u32, b: u32) -> (r: u32)
    ensures
        r == sat_add(a, b),
{
    if a <= u32::MAX - b {
        a + b
    } else {
        u32::MAX
    }
}

#[verifier::when_used_as_spec(sat_sub)]
pub fn sub_saturating(a: u32, b: u32) -> (r: u32)
    ensures
        r == sat_sub(a, b),
{
    if a >= b {
        a - b
    } else {
        0
    }
}

impl CoinLedger {
    /// The balance held by `side`.
    pub open spec fn spec_balance(&self, side: Side) -> u32 {
        match side {
            Side::Mine => self.my_coins,
            Side::Yours => self.your_coins,
        }
    }

    pub fn new(my_coins: u32, your_coins: u32) -> (r: CoinLedger)
        ensures
            r.my_coins == my_coins,
            r.your_coins == your_coins,
    {
        CoinLedger { my_coins, your_coins }
    }

    #[verifier::when_used_as_spec(spec_balance)]
    pub fn balance(&self, side: Side) -> (r: u32)
        ensures
            r == self.spec_balance(side),
    {
        match side {
            Side::Mine => self.my_coins,
            Side::Yours => self.your_coins,
        }
    }

    /// Credits `n` coins to `side`, saturating at the machine ceiling.
    pub fn add(&mut self, side: Side, n: u32)
        ensures
            final(self).balance(side) == sat_add(old(self).balance(side), n),
            final(self).balance(other_side(side)) == old(self).balance(other_side(side)),
    {
        match side {
            Side::Mine => {
                self.my_coins = add_saturating(self.my_coins, n);
            },
            Side::Yours => {
                self.your_coins = add_saturating(self.your_coins, n);
            },
        }
    }

    /// Debits `n` coins from `side`, saturating at zero.
    pub fn sub(&mut self, side: Side, n: u32)
        ensures
            final(self).balance(side) == sat_sub(old(self).balance(side), n),
            final(self).balance(other_side(side)) == old(self).balance(other_side(side)),
    {
        match side {
            Side::Mine => {
                self.my_coins = sub_saturating(self.my_coins, n);
            },
            Side::Yours => {
                self.your_coins = sub_saturating(self.your_coins, n);
            },
        }
    }

    /// Whether `side` has run out of coins.
    pub fn is_empty(&self, side: Side) -> (r: bool)
        ensures
            r == (self.balance(side) == 0),
    {
        self.balance(side) == 0
    }
}

/// Saturation law for the ledger: a debit larger than the balance leaves
/// zero, and any further debit still leaves zero.
pub proof fn lemma_sub_saturates(ledger: CoinLedger, side: Side, n: u32, m: u32)
    requires
        ledger.balance(side) < n,
    ensures
        sat_sub(ledger.balance(side), n) == 0,
        sat_sub(sat_sub(ledger.balance(side), n), m) == 0,
{
}

/// Both balances are non-negative in every ledger state.
pub proof fn lemma_balances_non_negative(ledger: CoinLedger)
    ensures
        ledger.balance(Side::Mine) >= 0,
        ledger.balance(Side::Yours) >= 0,
{
}

} // verus!
