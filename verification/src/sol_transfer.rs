//! The lamport transfer program: direct transfers, and a vault that takes
//! deposits and pays its authority back. Each accepted request yields the
//! system-program transfer to perform.

use vstd::prelude::*;

verus! {

/// The vault account's data.
pub struct Vault {
    pub authority: [u8; 32],
    /// Lamports deposited into the vault over its lifetime.
    pub total_deposited: u64,
}

impl Vault {
    /// Bytes the account occupies: discriminator, authority, total.
    pub const SPACE: usize = 48;
}

/// Errors of the transfer program.
#[derive(Debug, PartialEq, Eq, Structural)]
pub enum TransferError {
    ZeroAmount,
    InsufficientFunds,
}

/// A movement of lamports for the system program to carry out.
#[derive(Debug)]
pub struct SystemTransfer {
    pub from: [u8; 32],
    pub to: [u8; 32],
    pub lamports: u64,
}

/// A transfer out of the vault, signed with the vault's seeds.
pub struct SignedTransfer {
    pub transfer: SystemTransfer,
    pub signer_seeds: Vec<Vec<u8>>,
}

/// The bytes of the seed prefix `"vault"`.
pub open spec fn vault_seed_prefix() -> Seq<u8> {
    seq![118u8, 97u8, 117u8, 108u8, 116u8]
}

/// The seeds that sign for the vault of `authority`: the prefix, the
/// authority's key, and the bump.
pub open spec fn vault_seeds(authority: [u8; 32], bump: u8) -> Seq<Seq<u8>> {
    seq![vault_seed_prefix(), authority@, seq![bump]]
}

/// Whether a payment of `amount` out of `available` lamports may go ahead.
pub open spec fn payment_check(amount: u64, available: u64) -> Result<(), TransferError> {
    if !(amount > 0) {
        Err(TransferError::ZeroAmount)
    } else if !(available >= amount) {
        Err(TransferError::InsufficientFunds)
    } else {
        Ok(())
    }
}

/// Sends `amount` lamports from `sender`, who holds `sender_lamports`, to
/// `recipient`.
pub fn transfer_sol(sender: [u8; 32], sender_lamports: u64, recipient: [u8; 32], amount: u64) -> (r: Result<SystemTransfer, TransferError>)
    ensures
        match payment_check(amount, sender_lamports) {
            Ok(_) => r == Ok::<SystemTransfer, TransferError>(SystemTransfer { from: sender, to: recipient, lamports: amount }),
            Err(e) => r == Err::<SystemTransfer, TransferError>(e),
        },
{
    if !(amount > 0) {
        return Err(TransferError::ZeroAmount);
    }
    if !(sender_lamports >= amount) {
        return Err(TransferError::InsufficientFunds);
    }
    Ok(SystemTransfer { from: sender, to: recipient, lamports: amount })
}

/// Sets up the vault of `authority` with nothing deposited.
pub fn initialize_vault(vault: &mut Vault, authority: [u8; 32])
    ensures
        *final(vault) == (Vault { authority, total_deposited: 0 }),
{
    vault.authority = authority;
    vault.total_deposited = 0;
}

/// Deposits `amount` lamports from `depositor` into the vault at
/// `vault_key`, adding them to the vault's total. A refused deposit leaves
/// the vault as it was.
pub fn deposit_to_vault(vault: &mut Vault, vault_key: [u8; 32], depositor: [u8; 32], amount: u64) -> (r: Result<SystemTransfer, TransferError>)
    requires
        amount > 0 ==> old(vault).total_deposited + amount <= u64::MAX,
    ensures
        amount > 0 ==> r == Ok::<SystemTransfer, TransferError>(SystemTransfer { from: depositor, to: vault_key, lamports: amount })
            && *final(vault) == (Vault { total_deposited: (old(vault).total_deposited + amount) as u64, ..*old(vault) }),
        amount == 0 ==> r == Err::<SystemTransfer, TransferError>(TransferError::ZeroAmount)
            && *final(vault) == *old(vault),
{
    if !(amount > 0) {
        return Err(TransferError::ZeroAmount);
    }
    vault.total_deposited = vault.total_deposited + amount;
    Ok(SystemTransfer { from: depositor, to: vault_key, lamports: amount })
}

/// Copies a 32-byte key into a vector.
fn key_bytes(key: &[u8; 32]) -> (v: Vec<u8>)
    ensures
        v@ == key@,
{
    let mut v: Vec<u8> = Vec::new();
    let mut i: usize = 0;
    while i < 32
        invariant
            0 <= i <= 32,
            key@.len() == 32,
            v@ == key@.take(i as int),
        decreases 32 - i,
    {
        v.push(key[i]);
        i = i + 1;
        proof {
            assert(v@ =~= key@.take(i as int));
        }
    }
    proof {
        assert(key@.take(32) =~= key@);
    }
    v
}

/// The seeds that sign for the vault of `authority` with `bump`.
pub fn vault_signer_seeds(authority: &[u8; 32], bump: u8) -> (seeds: Vec<Vec<u8>>)
    ensures
        seeds@.len() == 3,
        forall|i: int| 0 <= i < 3 ==> #[trigger] seeds@[i]@ == vault_seeds(*authority, bump)[i],
{
    let prefix: Vec<u8> = vec![118u8, 97u8, 117u8, 108u8, 116u8];
    let key = key_bytes(authority);
    let bump_seed: Vec<u8> = vec![bump];
    let mut seeds: Vec<Vec<u8>> = Vec::new();
    seeds.push(prefix);
    seeds.push(key);
    seeds.push(bump_seed);
    proof {
        assert(seeds@[0]@ =~= vault_seed_prefix());
        assert(seeds@[2]@ =~= seq![bump]);
    }
    seeds
}

/// Pays `amount` lamports from the vault at `vault_key`, which holds
/// `vault_lamports`, back to its `authority`, signing with the vault's seeds.
/// The vault's deposit total is left as it is.
pub fn withdraw_from_vault(vault_key: [u8; 32], vault_lamports: u64, authority: [u8; 32], bump: u8, amount: u64) -> (r: Result<SignedTransfer, TransferError>)
    ensures
        match payment_check(amount, vault_lamports) {
            Ok(_) => r matches Ok(t)
                && t.transfer == (SystemTransfer { from: vault_key, to: authority, lamports: amount })
                && t.signer_seeds@.len() == 3
                && (forall|i: int| 0 <= i < 3 ==> #[trigger] t.signer_seeds@[i]@ == vault_seeds(authority, bump)[i]),
            Err(e) => r matches Err(re) && re == e,
        },
{
    if !(amount > 0) {
        return Err(TransferError::ZeroAmount);
    }
    if !(vault_lamports >= amount) {
        return Err(TransferError::InsufficientFunds);
    }
    let signer_seeds = vault_signer_seeds(&authority, bump);
    Ok(SignedTransfer {
        transfer: SystemTransfer { from: vault_key, to: authority, lamports: amount },
        signer_seeds,
    })
}

} // verus!
