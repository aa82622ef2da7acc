//! The bank program: an account with a minimum balance, a daily withdrawal
//! limit, and a freeze switch, refusing bad requests with its own errors.

use vstd::prelude::*;

verus! {

/// Most lamports that may leave an account in one day (1 SOL).
pub const DAILY_LIMIT: u64 = 1_000_000_000;

/// Fewest lamports an open account may hold.
pub const MINIMUM_BALANCE: u64 = 10_000;

/// Seconds in one day, the period of the withdrawal limit.
pub const SECONDS_PER_DAY: i64 = 86_400;

/// The bank account's data.
pub struct BankAccount {
    pub owner: [u8; 32],
    pub balance: u64,
    pub is_active: bool,
    pub is_frozen: bool,
    /// Lamports withdrawn since `last_reset_day` began.
    pub daily_transferred: u64,
    /// The day (Unix time divided by a day's seconds) the limit last restarted.
    pub last_reset_day: i64,
}

impl BankAccount {
    /// Bytes the account occupies: discriminator and fields.
    pub const SPACE: usize = 66;
}

/// Errors of the bank program, in the order of their error codes.
#[derive(Debug, PartialEq, Eq, Structural)]
pub enum BankError {
    AccountAlreadyActive,
    AccountNotActive,
    InsufficientBalance,
    ZeroAmount,
    DailyLimitExceeded,
    AccountFrozen,
    Unauthorized,
    BelowMinimumBalance,
}

/// The day a Unix timestamp falls in, dividing by a day's seconds and
/// rounding toward zero.
pub open spec fn day_of(unix_timestamp: int) -> int {
    if unix_timestamp >= 0 {
        unix_timestamp / 86_400
    } else {
        -((-unix_timestamp) / 86_400)
    }
}

/// The day a Unix timestamp falls in.
pub fn day_number(unix_timestamp: i64) -> (day: i64)
    ensures
        day == day_of(unix_timestamp as int),
{
    if unix_timestamp >= 0 {
        unix_timestamp / SECONDS_PER_DAY
    } else {
        let magnitude: u64 = (0 - (unix_timestamp as i128)) as u64;
        let days: u64 = magnitude / 86_400;
        0 - (days as i64)
    }
}

/// The account as `open_account` leaves it, or the error that refuses it.
pub open spec fn opened(owner: [u8; 32], initial_deposit: u64, unix_timestamp: i64) -> Result<BankAccount, BankError> {
    if initial_deposit < MINIMUM_BALANCE {
        Err(BankError::BelowMinimumBalance)
    } else {
        Ok(BankAccount {
            owner,
            balance: initial_deposit,
            is_active: true,
            is_frozen: false,
            daily_transferred: 0,
            last_reset_day: day_of(unix_timestamp as int) as i64,
        })
    }
}

/// The checks every deposit and withdrawal passes first, in order.
pub open spec fn usable(a: BankAccount, amount: u64) -> Result<(), BankError> {
    if amount == 0 {
        Err(BankError::ZeroAmount)
    } else if !a.is_active {
        Err(BankError::AccountNotActive)
    } else if a.is_frozen {
        Err(BankError::AccountFrozen)
    } else {
        Ok(())
    }
}

/// The account after a deposit, or the error that refuses it.
pub open spec fn deposited(a: BankAccount, amount: u64) -> Result<BankAccount, BankError> {
    match usable(a, amount) {
        Err(e) => Err(e),
        Ok(_) => Ok(BankAccount { balance: (a.balance + amount) as u64, ..a }),
    }
}

/// Withdrawn so far on `today`: the count restarts on a later day.
pub open spec fn transferred_on(a: BankAccount, today: int) -> u64 {
    if today > a.last_reset_day { 0 } else { a.daily_transferred }
}

/// The account after a withdrawal on `today`, or the error that refuses it.
pub open spec fn withdrawn(a: BankAccount, amount: u64, today: int) -> Result<BankAccount, BankError> {
    match usable(a, amount) {
        Err(e) => Err(e),
        Ok(_) => {
            let daily = transferred_on(a, today);
            let last = if today > a.last_reset_day { today as i64 } else { a.last_reset_day };
            if daily + amount > DAILY_LIMIT {
                Err(BankError::DailyLimitExceeded)
            } else if a.balance < amount + MINIMUM_BALANCE {
                Err(BankError::InsufficientBalance)
            } else {
                Ok(BankAccount {
                    balance: (a.balance - amount) as u64,
                    daily_transferred: (daily + amount) as u64,
                    last_reset_day: last,
                    ..a
                })
            }
        },
    }
}

/// The account after freezing, or the error that refuses it.
pub open spec fn frozen(a: BankAccount) -> Result<BankAccount, BankError> {
    if !a.is_active {
        Err(BankError::AccountNotActive)
    } else if a.is_frozen {
        Err(BankError::AccountFrozen)
    } else {
        Ok(BankAccount { is_frozen: true, ..a })
    }
}

/// The account after unfreezing, or the error that refuses it.
pub open spec fn unfrozen(a: BankAccount) -> Result<BankAccount, BankError> {
    if !a.is_active {
        Err(BankError::AccountNotActive)
    } else if !a.is_frozen {
        Err(BankError::AccountFrozen)
    } else {
        Ok(BankAccount { is_frozen: false, ..a })
    }
}

/// Whether an account may be closed, or the error that refuses it.
pub open spec fn closable(a: BankAccount) -> Result<(), BankError> {
    if !a.is_active {
        Err(BankError::AccountNotActive)
    } else if a.is_frozen {
        Err(BankError::AccountFrozen)
    } else {
        Ok(())
    }
}

/// Copies the fields of `from` into `to`.
fn store(to: &mut BankAccount, from: BankAccount)
    ensures
        *final(to) == from,
{
    *to = from;
}

/// Opens the account for `owner` with `initial_deposit` lamports at
/// `unix_timestamp`; refuses a deposit under the minimum balance, leaving
/// the account untouched.
pub fn open_account(account: &mut BankAccount, owner: [u8; 32], initial_deposit: u64, unix_timestamp: i64) -> (r: Result<(), BankError>)
    ensures
        match opened(owner, initial_deposit, unix_timestamp) {
            Ok(next) => r is Ok && *final(account) == next,
            Err(e) => r == Err::<(), BankError>(e) && *final(account) == *old(account),
        },
        r is Ok <==> initial_deposit >= MINIMUM_BALANCE,
        r is Ok ==> final(account).balance == initial_deposit && final(account).daily_transferred == 0
            && final(account).is_active && !final(account).is_frozen && final(account).owner == owner,
{
    if !(initial_deposit >= MINIMUM_BALANCE) {
        return Err(BankError::BelowMinimumBalance);
    }
    let today = day_number(unix_timestamp);
    store(account, BankAccount {
        owner,
        balance: initial_deposit,
        is_active: true,
        is_frozen: false,
        daily_transferred: 0,
        last_reset_day: today,
    });
    Ok(())
}

/// Checks shared by deposits and withdrawals: a nonzero amount on an
/// active, unfrozen account.
pub fn check_usable(account: &BankAccount, amount: u64) -> (r: Result<(), BankError>)
    ensures
        r == usable(*account, amount),
{
    if !(amount > 0) {
        return Err(BankError::ZeroAmount);
    }
    if !account.is_active {
        return Err(BankError::AccountNotActive);
    }
    if account.is_frozen {
        return Err(BankError::AccountFrozen);
    }
    Ok(())
}

/// Deposits `amount` lamports.
pub fn deposit(account: &mut BankAccount, amount: u64) -> (r: Result<(), BankError>)
    requires
        usable(*old(account), amount) is Ok ==> old(account).balance + amount <= u64::MAX,
    ensures
        match deposited(*old(account), amount) {
            Ok(next) => r is Ok && *final(account) == next,
            Err(e) => r == Err::<(), BankError>(e) && *final(account) == *old(account),
        },
        r is Ok <==> amount > 0 && old(account).is_active && !old(account).is_frozen,
        r is Ok ==> final(account).balance == old(account).balance + amount,
{
    check_usable(account, amount)?;
    account.balance = account.balance + amount;
    Ok(())
}

/// Withdraws `amount` lamports at `unix_timestamp`: the daily count
/// restarts on a new day, the day's total may not pass the daily limit, and
/// the minimum balance must stay behind; any amount that would take the
/// day's total past the limit is refused with `DailyLimitExceeded`. A
/// refused withdrawal leaves the account untouched.
pub fn withdraw(account: &mut BankAccount, amount: u64, unix_timestamp: i64) -> (r: Result<(), BankError>)
    ensures
        match withdrawn(*old(account), amount, day_of(unix_timestamp as int)) {
            Ok(next) => r is Ok && *final(account) == next,
            Err(e) => r == Err::<(), BankError>(e) && *final(account) == *old(account),
        },
        r is Ok ==> final(account).balance == old(account).balance - amount,
        r is Ok ==> final(account).daily_transferred == (if day_of(unix_timestamp as int) > old(account).last_reset_day {
            0
        } else {
            old(account).daily_transferred as int
        }) + amount,
        r is Ok ==> final(account).daily_transferred <= DAILY_LIMIT,
        r is Ok <==> amount > 0 && old(account).is_active && !old(account).is_frozen
            && (if day_of(unix_timestamp as int) > old(account).last_reset_day {
                0
            } else {
                old(account).daily_transferred as int
            }) + amount <= DAILY_LIMIT
            && old(account).balance >= amount + MINIMUM_BALANCE,
{
    check_usable(account, amount)?;
    let today = day_number(unix_timestamp);
    let mut daily = account.daily_transferred;
    let mut last = account.last_reset_day;
    if today > last {
        daily = 0;
        last = today;
    }
    if daily > DAILY_LIMIT || amount > DAILY_LIMIT - daily {
        return Err(BankError::DailyLimitExceeded);
    }
    if !(account.balance >= amount + MINIMUM_BALANCE) {
        return Err(BankError::InsufficientBalance);
    }
    account.balance = account.balance - amount;
    account.daily_transferred = daily + amount;
    account.last_reset_day = last;
    Ok(())
}

/// Freezes an active account.
pub fn freeze_account(account: &mut BankAccount) -> (r: Result<(), BankError>)
    ensures
        match frozen(*old(account)) {
            Ok(next) => r is Ok && *final(account) == next,
            Err(e) => r == Err::<(), BankError>(e) && *final(account) == *old(account),
        },
        r is Ok <==> old(account).is_active && !old(account).is_frozen,
        r is Ok ==> final(account).is_frozen && final(account).balance == old(account).balance,
{
    if !account.is_active {
        return Err(BankError::AccountNotActive);
    }
    if account.is_frozen {
        return Err(BankError::AccountFrozen);
    }
    account.is_frozen = true;
    Ok(())
}

/// Unfreezes a frozen active account.
pub fn unfreeze_account(account: &mut BankAccount) -> (r: Result<(), BankError>)
    ensures
        match unfrozen(*old(account)) {
            Ok(next) => r is Ok && *final(account) == next,
            Err(e) => r == Err::<(), BankError>(e) && *final(account) == *old(account),
        },
        r is Ok <==> old(account).is_active && old(account).is_frozen,
        r is Ok ==> !final(account).is_frozen && final(account).balance == old(account).balance,
{
    if !account.is_active {
        return Err(BankError::AccountNotActive);
    }
    if !account.is_frozen {
        return Err(BankError::AccountFrozen);
    }
    account.is_frozen = false;
    Ok(())
}

/// Checks that an account may be closed: active and not frozen.
pub fn close_account(account: &BankAccount) -> (r: Result<(), BankError>)
    ensures
        r == closable(*account),
{
    if !account.is_active {
        return Err(BankError::AccountNotActive);
    }
    if account.is_frozen {
        return Err(BankError::AccountFrozen);
    }
    Ok(())
}

/// What every open account keeps: at least the minimum balance, and no more
/// withdrawn in its current day than the daily limit.
pub open spec fn well_funded(a: BankAccount) -> bool {
    &&& a.is_active ==> a.balance >= MINIMUM_BALANCE
    &&& a.daily_transferred <= DAILY_LIMIT
}

/// A newly opened account is well funded, and every accepted deposit,
/// withdrawal, freeze and unfreeze keeps it so.
pub proof fn law_minimum_balance_kept(a: BankAccount, owner: [u8; 32], initial_deposit: u64, unix_timestamp: i64, amount: u64, today: int)
    ensures
        opened(owner, initial_deposit, unix_timestamp) matches Ok(n) ==> well_funded(n),
        well_funded(a) && a.balance + amount <= u64::MAX ==> (deposited(a, amount) matches Ok(n) ==> well_funded(n)),
        well_funded(a) ==> (withdrawn(a, amount, today) matches Ok(n) ==> well_funded(n)),
        well_funded(a) ==> (frozen(a) matches Ok(n) ==> well_funded(n)),
        well_funded(a) ==> (unfrozen(a) matches Ok(n) ==> well_funded(n)),
{
}

/// A frozen account refuses every deposit and withdrawal of a nonzero amount.
pub proof fn law_frozen_refuses(a: BankAccount, amount: u64, today: int)
    requires
        a.is_active,
        a.is_frozen,
        amount > 0,
    ensures
        deposited(a, amount) == Err::<BankAccount, BankError>(BankError::AccountFrozen),
        withdrawn(a, amount, today) == Err::<BankAccount, BankError>(BankError::AccountFrozen),
        closable(a) == Err::<(), BankError>(BankError::AccountFrozen),
{
}

/// Unfreezing a freshly frozen account gives back the account as it was.
pub proof fn law_unfreeze_undoes_freeze(a: BankAccount)
    requires
        frozen(a) is Ok,
    ensures
        unfrozen(frozen(a)->Ok_0) == Ok::<BankAccount, BankError>(a),
{
}

/// Withdrawing what was just deposited, within the day's limit, gives back
/// the balance from before the deposit.
pub proof fn law_withdraw_undoes_deposit(a: BankAccount, amount: u64, today: int)
    requires
        well_funded(a),
        a.balance + amount <= u64::MAX,
        deposited(a, amount) is Ok,
        transferred_on(a, today) + amount <= DAILY_LIMIT,
    ensures
        withdrawn(deposited(a, amount)->Ok_0, amount, today) matches Ok(n) && n.balance == a.balance,
{
}

/// An accepted withdrawal adds its amount to the day's running total (which
/// starts again from zero on a later day) and takes it from the balance; a
/// second withdrawal on the same day adds to the first, so the amounts
/// accepted within one day never sum past the daily limit.
pub proof fn law_daily_total_accumulates(a: BankAccount, x: u64, y: u64, today: i64)
    ensures
        withdrawn(a, x, today as int) matches Ok(n) ==> {
            &&& n.daily_transferred == (if today > a.last_reset_day { 0 } else { a.daily_transferred as int }) + x
            &&& n.daily_transferred <= DAILY_LIMIT
            &&& n.balance == a.balance - x
            &&& n.last_reset_day >= today
            &&& n.last_reset_day == (if today > a.last_reset_day { today } else { a.last_reset_day })
            &&& n.owner == a.owner && n.is_active == a.is_active && n.is_frozen == a.is_frozen
        },
        withdrawn(a, x, today as int) is Ok <==> x > 0 && a.is_active && !a.is_frozen
            && (if today > a.last_reset_day { 0 } else { a.daily_transferred as int }) + x <= DAILY_LIMIT
            && a.balance >= x + MINIMUM_BALANCE,
        x > 0 && a.is_active && !a.is_frozen
            && (if today > a.last_reset_day { 0 } else { a.daily_transferred as int }) + x > DAILY_LIMIT
            ==> withdrawn(a, x, today as int) == Err::<BankAccount, BankError>(BankError::DailyLimitExceeded),
        x > 0 && a.is_active && !a.is_frozen
            && (if today > a.last_reset_day { 0 } else { a.daily_transferred as int }) + x <= DAILY_LIMIT
            && a.balance < x + MINIMUM_BALANCE
            ==> withdrawn(a, x, today as int) == Err::<BankAccount, BankError>(BankError::InsufficientBalance),
        withdrawn(a, x, today as int) matches Ok(n) ==> (withdrawn(n, y, today as int) matches Ok(m) ==> {
            &&& m.daily_transferred == (if today > a.last_reset_day { 0 } else { a.daily_transferred as int }) + x + y
            &&& x + y <= DAILY_LIMIT
            &&& m.balance == a.balance - x - y
        }),
{
}

} // verus!
