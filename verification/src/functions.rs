//! Plain functions over lamport amounts: fees, swaps, transfers, powers.

use vstd::prelude::*;
use crate::text::{decimal, push_decimal};

verus! {

/// Basis points in one whole (100 bps = 1%).
pub const BPS_DENOMINATOR: u64 = 10_000;

/// The fee on `amount` at `fee_bps` basis points, rounded down.
pub open spec fn fee_of(amount: int, fee_bps: int) -> int {
    amount * fee_bps / 10_000
}

/// Fee charged on `amount` lamports at a rate of `fee_bps` basis points.
pub fn calculate_fee(amount: u64, fee_bps: u64) -> (fee: u64)
    requires
        amount * fee_bps <= u64::MAX,
    ensures
        fee == fee_of(amount as int, fee_bps as int),
{
    amount * fee_bps / BPS_DENOMINATOR
}

/// Swaps `amount_in`, keeping a fee of `fee_bps` basis points; returns
/// `(amount_out, fee)`.
pub fn swap(amount_in: u64, fee_bps: u64) -> (r: (u64, u64))
    requires
        amount_in * fee_bps <= u64::MAX,
        fee_of(amount_in as int, fee_bps as int) <= amount_in,
    ensures
        r.1 == fee_of(amount_in as int, fee_bps as int),
        r.0 == amount_in - r.1,
{
    let fee = calculate_fee(amount_in, fee_bps);
    let amount_out = amount_in - fee;
    (amount_out, fee)
}

/// The message of a transfer refused for want of funds.
pub open spec fn shortfall_message(balance: u64, amount: u64) -> Seq<char> {
    "Yetersiz bakiye: "@ + decimal(balance as nat) + " < "@ + decimal(amount as nat)
}

/// Takes `amount` out of `balance`; refuses with a message when the balance
/// is too small.
pub fn transfer(balance: u64, amount: u64) -> (r: Result<u64, String>)
    ensures
        match r {
            Ok(rest) => amount <= balance && rest == balance - amount,
            Err(msg) => amount > balance && msg@ == shortfall_message(balance, amount),
        },
{
    if amount > balance {
        let mut msg = String::from_str("Yetersiz bakiye: ");
        push_decimal(&mut msg, balance);
        msg.append(" < ");
        push_decimal(&mut msg, amount);
        return Err(msg);
    }
    Ok(balance - amount)
}

/// `base` raised to `exp`.
pub open spec fn pow_spec(base: nat, exp: nat) -> nat
    decreases exp,
{
    if exp == 0 {
        1
    } else {
        base * pow_spec(base, (exp - 1) as nat)
    }
}

/// Raising a positive base to a higher power never gives less.
pub proof fn lemma_pow_step_grows(base: nat, exp: nat)
    requires
        exp > 0,
    ensures
        base == 0 ==> pow_spec(base, (exp - 1) as nat) <= 1,
        base > 0 ==> pow_spec(base, (exp - 1) as nat) <= pow_spec(base, exp),
{
    let prev = pow_spec(base, (exp - 1) as nat);
    if base == 0 {
        if exp > 1 {
            assert(prev == 0 * pow_spec(base, (exp - 2) as nat));
        }
    } else {
        assert(prev <= base * prev) by (nonlinear_arith)
            requires
                base > 0,
        ;
    }
}

/// `base` raised to `exp`, computed recursively.
pub fn power(base: u64, exp: u32) -> (r: u64)
    requires
        pow_spec(base as nat, exp as nat) <= u64::MAX,
    ensures
        r == pow_spec(base as nat, exp as nat),
    decreases exp,
{
    if exp == 0 {
        return 1;
    }
    proof {
        lemma_pow_step_grows(base as nat, exp as nat);
    }
    base * power(base, exp - 1)
}

/// Reads the value behind a reference.
pub fn safe_wrapper(val: &u64) -> (r: u64)
    ensures
        r == *val,
{
    *val
}

/// Adds a deposit of `amount` to the running `vault_total`.
pub fn simulate_deposit(vault_total: &mut u64, amount: u64)
    requires
        *old(vault_total) + amount <= u64::MAX,
    ensures
        *final(vault_total) == *old(vault_total) + amount,
{
    *vault_total += amount;
}

} // verus!
