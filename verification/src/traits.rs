//! Traits: account kinds that report their on-chain size, a description
//! builder, and addition of lamport amounts.

use vstd::prelude::*;

verus! {

/// An account kind that knows how many bytes it occupies.
pub trait AccountInfo {
    /// The bytes an account of this kind occupies.
    spec fn spec_space(&self) -> nat;

    /// The bytes an account of this kind occupies.
    fn space(&self) -> (r: usize)
        ensures
            r == self.spec_space(),
    ;

    /// Whether the account is larger than its 8-byte discriminator alone.
    fn is_valid(&self) -> (b: bool)
        ensures
            b == (self.spec_space() > 8),
    {
        self.space() > 8
    }
}

/// A vault account.
pub struct VaultAccount {
    pub total: u64,
    pub bump: u8,
}

impl AccountInfo for VaultAccount {
    /// Discriminator, total, bump.
    open spec fn spec_space(&self) -> nat {
        17
    }

    fn space(&self) -> (r: usize) {
        8 + 8 + 1
    }
}

/// An escrow account between two parties.
pub struct EscrowAccount {
    pub maker: &'static str,
    pub taker: &'static str,
    pub amount: u64,
}

impl AccountInfo for EscrowAccount {
    /// Discriminator, maker key, taker key, amount.
    open spec fn spec_space(&self) -> nat {
        80
    }

    fn space(&self) -> (r: usize) {
        8 + 32 + 32 + 8
    }
}

/// A token account.
pub struct TokenAccount {
    pub mint: &'static str,
    pub amount: u64,
    pub decimals: u8,
}

impl AccountInfo for TokenAccount {
    /// Discriminator, mint key, amount, decimals.
    open spec fn spec_space(&self) -> nat {
        49
    }

    fn space(&self) -> (r: usize) {
        8 + 32 + 8 + 1
    }
}

/// A description of the named account.
pub fn make_description(name: &str) -> (s: String)
    ensures
        s@ == "Account: "@ + name@,
{
    let mut s = String::from_str("Account: ");
    s.append(name);
    s
}

/// An amount of lamports that can be added to another.
pub struct LamportAmount(pub u64);

impl std::ops::Add for LamportAmount {
    type Output = LamportAmount;

    fn add(self, other: LamportAmount) -> (r: LamportAmount) {
        LamportAmount(self.0 + other.0)
    }
}

impl vstd::std_specs::ops::AddSpecImpl for LamportAmount {
    open spec fn obeys_add_spec() -> bool {
        true
    }

    open spec fn add_req(self, other: LamportAmount) -> bool {
        self.0 + other.0 <= u64::MAX
    }

    open spec fn add_spec(self, other: LamportAmount) -> LamportAmount {
        LamportAmount((self.0 + other.0) as u64)
    }
}

} // verus!
