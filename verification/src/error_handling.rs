//! Error handling with a custom error type: parsing with `?`, transfers
//! that refuse zero or uncovered amounts, fees, and a withdrawal guarded
//! like Anchor's `require!` checks.

use vstd::prelude::*;
use crate::text::{decimal, push_decimal};
use crate::functions::fee_of;
use crate::parsing::{ParseIntError, parse_u64, parsed_u64, parse_u64_error, parse_error_text};

verus! {

/// Errors of the examples in this module.
#[derive(Debug, PartialEq, Eq, Structural)]
pub enum AppError {
    InsufficientFunds { balance: u64, requested: u64 },
    ZeroAmount,
    ParseError(ParseIntError),
    AccountLocked,
}

/// The text of an application error.
pub open spec fn app_error_text(e: AppError) -> Seq<char> {
    match e {
        AppError::InsufficientFunds { balance, requested } =>
            "Yetersiz bakiye: sahip="@ + decimal(balance as nat) + ", istek="@ + decimal(requested as nat),
        AppError::ZeroAmount => "Sıfır miktar gönderilemez"@,
        AppError::ParseError(p) => "Parse hatası: "@ + parse_error_text(p),
        AppError::AccountLocked => "Hesap kilitli"@,
    }
}

impl AppError {
    /// The error's message.
    pub fn to_string(&self) -> (s: String)
        ensures
            s@ == app_error_text(*self),
    {
        match self {
            AppError::InsufficientFunds { balance, requested } => {
                let mut s = String::from_str("Yetersiz bakiye: sahip=");
                push_decimal(&mut s, *balance);
                s.append(", istek=");
                push_decimal(&mut s, *requested);
                s
            },
            AppError::ZeroAmount => String::from_str("Sıfır miktar gönderilemez"),
            AppError::ParseError(p) => {
                let mut s = String::from_str("Parse hatası: ");
                let text = p.to_string();
                s.append(text.as_str());
                s
            },
            AppError::AccountLocked => String::from_str("Hesap kilitli"),
        }
    }
}

impl From<ParseIntError> for AppError {
    fn from(e: ParseIntError) -> (r: Self) {
        AppError::ParseError(e)
    }
}

impl vstd::std_specs::convert::FromSpecImpl<ParseIntError> for AppError {
    open spec fn obeys_from_spec() -> bool {
        true
    }

    open spec fn from_spec(e: ParseIntError) -> Self {
        AppError::ParseError(e)
    }
}

/// Reads a number and doubles it.
pub fn parse_and_double(s: &str) -> (r: Result<u64, ParseIntError>)
    requires
        parsed_u64(s@) matches Some(v) ==> v * 2 <= u64::MAX,
    ensures
        parsed_u64(s@) matches Some(v) ==> r == Ok::<u64, ParseIntError>((v * 2) as u64),
        parsed_u64(s@) is None ==> r == Err::<u64, ParseIntError>(parse_u64_error(s@)),
{
    let n: u64 = parse_u64(s)?;
    Ok(n * 2)
}

/// Takes `amount` out of `balance`, refusing a zero amount or one the
/// balance does not cover.
pub fn transfer(balance: u64, amount: u64) -> (r: Result<u64, AppError>)
    ensures
        amount == 0 ==> r == Err::<u64, AppError>(AppError::ZeroAmount),
        amount != 0 && balance < amount ==> r == Err::<u64, AppError>(
            AppError::InsufficientFunds { balance, requested: amount },
        ),
        amount != 0 && balance >= amount ==> r == Ok::<u64, AppError>((balance - amount) as u64),
{
    if amount == 0 {
        return Err(AppError::ZeroAmount);
    }
    if balance < amount {
        return Err(AppError::InsufficientFunds { balance, requested: amount });
    }
    Ok(balance - amount)
}

/// Reads a deposit amount, turning a parse failure into an `AppError`;
/// returns the amount read.
pub fn process_deposit(s: &str) -> (r: Result<u64, AppError>)
    ensures
        parsed_u64(s@) matches Some(v) ==> r == Ok::<u64, AppError>(v),
        parsed_u64(s@) is None ==> r == Err::<u64, AppError>(AppError::ParseError(parse_u64_error(s@))),
{
    match parse_u64(s) {
        Ok(amount) => Ok(amount),
        Err(e) => Err(AppError::from(e)),
    }
}

/// Refuses a zero amount, passing any other through.
pub fn validate_amount(amount: u64) -> (r: Result<u64, AppError>)
    ensures
        amount == 0 ==> r == Err::<u64, AppError>(AppError::ZeroAmount),
        amount != 0 ==> r == Ok::<u64, AppError>(amount),
{
    if amount == 0 {
        return Err(AppError::ZeroAmount);
    }
    Ok(amount)
}

/// What is left of `amount` after a fee of `fee_bps` basis points.
pub fn apply_fee(amount: u64, fee_bps: u64) -> (r: Result<u64, AppError>)
    requires
        amount * fee_bps <= u64::MAX,
        fee_of(amount as int, fee_bps as int) <= amount,
    ensures
        r == Ok::<u64, AppError>((amount - fee_of(amount as int, fee_bps as int)) as u64),
{
    let fee = amount * fee_bps / 10_000;
    Ok(amount - fee)
}

/// The outcome of a guarded withdrawal, checks in order: a nonzero amount,
/// an unlocked account, enough funds.
pub open spec fn guarded_withdrawal(total: u64, amount: u64, is_locked: bool) -> Result<u64, AppError> {
    if amount == 0 {
        Err(AppError::ZeroAmount)
    } else if is_locked {
        Err(AppError::AccountLocked)
    } else if total < amount {
        Err(AppError::InsufficientFunds { balance: total, requested: amount })
    } else {
        Ok((total - amount) as u64)
    }
}

/// Withdraws `amount` from `total` after the checks an Anchor handler would
/// make with `require!`.
pub fn anchor_like_withdraw(total: u64, amount: u64, is_locked: bool) -> (r: Result<u64, AppError>)
    ensures
        r == guarded_withdrawal(total, amount, is_locked),
{
    if amount == 0 {
        return Err(AppError::ZeroAmount);
    }
    if is_locked {
        return Err(AppError::AccountLocked);
    }
    if total < amount {
        return Err(AppError::InsufficientFunds { balance: total, requested: amount });
    }
    Ok(total - amount)
}

/// A successful guarded withdrawal leaves exactly the total minus the
/// amount, never more than was there.
pub proof fn law_withdrawal_takes_exactly_amount(total: u64, amount: u64, is_locked: bool)
    ensures
        guarded_withdrawal(total, amount, is_locked) matches Ok(rest) ==> rest + amount == total,
        guarded_withdrawal(total, amount, is_locked) is Ok <==> amount > 0 && !is_locked && amount <= total,
{
}

} // verus!
