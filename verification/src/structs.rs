//! Structs with methods: a vault with deposits, withdrawals and a rent
//! check, and newtypes for lamports and basis points.

use vstd::prelude::*;
use crate::text::{decimal, push_decimal};

verus! {

/// Fewest lamports that keep an account free of rent.
pub const RENT_EXEMPT_MINIMUM: u64 = 2_039_280;

/// A vault with an authority and a lock flag.
pub struct VaultState {
    pub total: u64,
    pub bump: u8,
    pub is_locked: bool,
    pub authority: [u8; 32],
}

/// The message of a withdrawal the vault cannot cover.
pub open spec fn short_message(total: u64, amount: u64) -> Seq<char> {
    "Yetersiz: "@ + decimal(total as nat) + " < "@ + decimal(amount as nat)
}

/// The vault after a deposit of `amount`.
pub open spec fn deposited(v: VaultState, amount: u64) -> VaultState {
    VaultState { total: (v.total + amount) as u64, ..v }
}

/// The vault after a withdrawal of `amount`, if it holds that much.
pub open spec fn withdrawn(v: VaultState, amount: u64) -> Option<VaultState> {
    if amount > v.total {
        None
    } else {
        Some(VaultState { total: (v.total - amount) as u64, ..v })
    }
}

impl VaultState {
    /// An empty, unlocked vault for `authority`.
    pub fn new(authority: [u8; 32], bump: u8) -> (v: Self)
        ensures
            v == (VaultState { total: 0, bump, is_locked: false, authority }),
    {
        Self { total: 0, bump, is_locked: false, authority }
    }

    /// Adds `amount` to the vault.
    pub fn deposit(&mut self, amount: u64)
        requires
            old(self).total + amount <= u64::MAX,
        ensures
            *final(self) == deposited(*old(self), amount),
    {
        self.total += amount;
    }

    /// Takes `amount` out of the vault and returns what is left; refuses,
    /// changing nothing, when the vault holds less.
    pub fn withdraw(&mut self, amount: u64) -> (r: Result<u64, String>)
        ensures
            withdrawn(*old(self), amount) is None ==> (r matches Err(msg) && msg@ == short_message(old(self).total, amount))
                && *final(self) == *old(self),
            withdrawn(*old(self), amount) matches Some(next) ==> r == Ok::<u64, String>(next.total)
                && *final(self) == next,
    {
        if amount > self.total {
            let mut msg = String::from_str("Yetersiz: ");
            push_decimal(&mut msg, self.total);
            msg.append(" < ");
            push_decimal(&mut msg, amount);
            return Err(msg);
        }
        self.total -= amount;
        Ok(self.total)
    }

    /// Whether the vault holds at least the rent-exempt minimum.
    pub fn is_rent_exempt(&self) -> (b: bool)
        ensures
            b == (self.total >= RENT_EXEMPT_MINIMUM),
    {
        self.total >= RENT_EXEMPT_MINIMUM
    }
}

/// Withdrawing what was just deposited gives back the vault as it was.
pub proof fn law_withdraw_undoes_deposit(v: VaultState, amount: u64)
    requires
        v.total + amount <= u64::MAX,
    ensures
        withdrawn(deposited(v, amount), amount) == Some(v),
{
}

/// An amount of lamports.
pub struct Lamports(pub u64);

/// A rate in basis points (100 = 1%).
pub struct BasisPoints(pub u16);

impl Lamports {
    /// The fee on this amount at rate `bps`, rounded down.
    pub fn fee(&self, bps: BasisPoints) -> (f: u64)
        requires
            self.0 * bps.0 <= u64::MAX,
        ensures
            f == self.0 * bps.0 / 10_000,
    {
        self.0 * (bps.0 as u64) / 10_000
    }
}

} // verus!
