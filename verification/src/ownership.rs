//! Ownership: values handed out by functions and state passed by value
//! through a deposit.

use vstd::prelude::*;

verus! {

/// Hands the caller a freshly made string.
pub fn gives_ownership() -> (s: String)
    ensures
        s@ == "yeni_veri"@,
{
    String::from_str("yeni_veri")
}

/// A vault passed around by value.
pub struct VaultState {
    pub total: u64,
    pub bump: u8,
}

/// Takes the vault, adds `amount` to its total, and gives it back.
pub fn process_deposit(vault: VaultState, amount: u64) -> (r: VaultState)
    requires
        vault.total + amount <= u64::MAX,
    ensures
        r == (VaultState { total: (vault.total + amount) as u64, ..vault }),
{
    let mut vault = vault;
    vault.total = vault.total + amount;
    vault
}

} // verus!
