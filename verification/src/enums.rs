//! Enums and matching: error codes with messages, balance lookup by vault
//! name, and amount parsing with a readable error.

use vstd::prelude::*;
use crate::text::{decimal, push_decimal, str_eq};
use crate::parsing::{parse_u64, parsed_u64, parse_u64_error, parse_error_text};

verus! {

/// Errors of an escrow, each with a numeric code and a message.
#[derive(Debug, PartialEq, Eq, Structural)]
pub enum EscrowError {
    InsufficientFunds,
    AccountLocked,
}

/// The code of an escrow error; custom codes start at 6000.
pub open spec fn escrow_error_code(e: EscrowError) -> u32 {
    match e {
        EscrowError::InsufficientFunds => 6000,
        EscrowError::AccountLocked => 6001,
    }
}

/// The message of an escrow error.
pub open spec fn escrow_error_message(e: EscrowError) -> Seq<char> {
    match e {
        EscrowError::InsufficientFunds => "Yetersiz bakiye"@,
        EscrowError::AccountLocked => "Hesap kilitli"@,
    }
}

impl EscrowError {
    /// The error's numeric code.
    pub fn code(&self) -> (c: u32)
        ensures
            c == escrow_error_code(*self),
    {
        match self {
            EscrowError::InsufficientFunds => 6000,
            EscrowError::AccountLocked => 6001,
        }
    }

    /// The error's message.
    pub fn message(&self) -> (m: &str)
        ensures
            m@ == escrow_error_message(*self),
    {
        match self {
            EscrowError::InsufficientFunds => "Yetersiz bakiye",
            EscrowError::AccountLocked => "Hesap kilitli",
        }
    }
}

/// Distinct escrow errors have distinct codes.
pub proof fn law_error_codes_distinct(a: EscrowError, b: EscrowError)
    ensures
        escrow_error_code(a) == escrow_error_code(b) <==> a == b,
{
}

/// The known balance of a vault, by name.
pub open spec fn known_balance(vault_id: Seq<char>) -> Option<u64> {
    if vault_id == "vault_1"@ {
        Some(5_000_000)
    } else if vault_id == "vault_2"@ {
        Some(3_000_000)
    } else {
        None
    }
}

/// Looks up the balance of the named vault.
pub fn find_balance(vault_id: &str) -> (r: Option<u64>)
    ensures
        r == known_balance(vault_id@),
{
    if str_eq(vault_id, "vault_1") {
        Some(5_000_000)
    } else if str_eq(vault_id, "vault_2") {
        Some(3_000_000)
    } else {
        None
    }
}

/// Reads an amount; a refused text gives the parser's reason after
/// `"parse hatası: "`.
pub fn parse_amount(s: &str) -> (r: Result<u64, String>)
    ensures
        parsed_u64(s@) matches Some(v) ==> r == Ok::<u64, String>(v),
        parsed_u64(s@) is None ==> (r matches Err(msg)
            && msg@ == "parse hatası: "@ + parse_error_text(parse_u64_error(s@))),
{
    match parse_u64(s) {
        Ok(v) => Ok(v),
        Err(e) => {
            let mut msg = String::from_str("parse hatası: ");
            let text = e.to_string();
            msg.append(text.as_str());
            Err(msg)
        },
    }
}

/// The state of a vault.
#[derive(Debug)]
pub enum VaultStatus {
    Active,
    Locked { reason: &'static str, until_slot: u64 },
    Closed,
}

/// The line that describes a vault's state.
pub open spec fn status_text(status: VaultStatus) -> Seq<char> {
    match status {
        VaultStatus::Active => "Vault aktif"@,
        VaultStatus::Locked { reason, until_slot } =>
            "Vault kilitli — sebep: "@ + reason@ + ", slot: "@ + decimal(until_slot as nat),
        VaultStatus::Closed => "Vault kapalı"@,
    }
}

/// Describes a vault's state in one line.
pub fn describe_status(status: &VaultStatus) -> (s: String)
    ensures
        s@ == status_text(*status),
{
    match status {
        VaultStatus::Active => String::from_str("Vault aktif"),
        VaultStatus::Locked { reason, until_slot } => {
            let mut s = String::from_str("Vault kilitli — sebep: ");
            s.append(reason);
            s.append(", slot: ");
            push_decimal(&mut s, *until_slot);
            s
        },
        VaultStatus::Closed => String::from_str("Vault kapalı"),
    }
}

/// An instruction a vault program receives.
#[derive(Debug)]
pub enum Instruction {
    Deposit { amount: u64, bump: u8 },
    Withdraw { amount: u64 },
    Close,
}

/// The line that reports an instruction being processed.
pub open spec fn instruction_text(ix: Instruction) -> Seq<char> {
    match ix {
        Instruction::Deposit { amount, bump } =>
            "[deposit] amount="@ + decimal(amount as nat) + ", bump="@ + decimal(bump as nat),
        Instruction::Withdraw { amount } => "[withdraw] amount="@ + decimal(amount as nat),
        Instruction::Close => "[close] vault kapatıldı"@,
    }
}

/// Processes an instruction, reporting what it does in one line.
pub fn process_instruction(ix: Instruction) -> (s: String)
    ensures
        s@ == instruction_text(ix),
{
    match ix {
        Instruction::Deposit { amount, bump } => {
            let mut s = String::from_str("[deposit] amount=");
            push_decimal(&mut s, amount);
            s.append(", bump=");
            push_decimal(&mut s, bump as u64);
            s
        },
        Instruction::Withdraw { amount } => {
            let mut s = String::from_str("[withdraw] amount=");
            push_decimal(&mut s, amount);
            s
        },
        Instruction::Close => String::from_str("[close] vault kapatıldı"),
    }
}

} // verus!
