//! Borrowing: reading through shared references and updating through
//! mutable ones.

use vstd::prelude::*;
use crate::text::{byte_len, byte_length, is_first_occurrence, prefix_before};

verus! {

/// The length of a string in bytes.
pub fn string_length(s: &String) -> (n: usize)
    ensures
        n == byte_len(s@),
{
    byte_length(s.as_str())
}

/// Adds `amount` lamports to `balance`.
pub fn add_lamports(balance: &mut u64, amount: u64)
    requires
        *old(balance) + amount <= u64::MAX,
    ensures
        *final(balance) == *old(balance) + amount,
{
    *balance += amount;
}

/// The first word of `s`: everything before the first space, or all of `s`
/// when it has no space.
pub fn first_word(s: &str) -> (r: &str)
    ensures
        (forall|i: int| 0 <= i < s@.len() ==> s@[i] != ' ') ==> r@ == s@,
        forall|k: int| is_first_occurrence(s@, ' ', k) ==> r@ == s@.take(k),
{
    prefix_before(s, ' ')
}

/// A vault updated in place.
pub struct VaultState {
    pub total: u64,
    pub bump: u8,
}

/// Records a deposit of `amount` by `depositor` into the vault.
pub fn deposit_simulation(vault: &mut VaultState, depositor: &str, amount: u64)
    requires
        old(vault).total + amount <= u64::MAX,
    ensures
        *final(vault) == (VaultState { total: (old(vault).total + amount) as u64, ..*old(vault) }),
{
    vault.total = vault.total + amount;
}

} // verus!
