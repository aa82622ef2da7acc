use solana_workshop::counter::{decrement, increment, initialize, reset, Counter, CounterError};
use solana_workshop::custom_error::{
    close_account, day_number, deposit, freeze_account, open_account, unfreeze_account, withdraw, BankAccount,
    BankError, DAILY_LIMIT, MINIMUM_BALANCE,
};
use solana_workshop::event_emit::{award_points, register_user, send_message, EventError, UserProfile};
use solana_workshop::sol_transfer::{
    deposit_to_vault, initialize_vault, transfer_sol, vault_signer_seeds, withdraw_from_vault, TransferError, Vault,
};

const OWNER: [u8; 32] = [7u8; 32];
const DAY: i64 = 86_400;

fn blank_account() -> BankAccount {
    BankAccount {
        owner: [0u8; 32],
        balance: 0,
        is_active: false,
        is_frozen: false,
        daily_transferred: 0,
        last_reset_day: 0,
    }
}

fn opened(initial: u64, now: i64) -> BankAccount {
    let mut account = blank_account();
    assert_eq!(open_account(&mut account, OWNER, initial, now), Ok(()));
    account
}

fn blank_profile() -> UserProfile {
    UserProfile { authority: [0u8; 32], username: String::new(), points: 0, message_count: 0 }
}

#[test]
fn counter_space() {
    assert_eq!(Counter::SPACE, 48);
    assert_eq!(BankAccount::SPACE, 66);
    assert_eq!(Vault::SPACE, 48);
}

#[test]
fn counter_counts_up_and_down() {
    let mut counter = Counter { authority: [0u8; 32], count: 99 };
    initialize(&mut counter, OWNER);
    assert_eq!(counter.count, 0);
    assert_eq!(counter.authority, OWNER);
    increment(&mut counter);
    increment(&mut counter);
    assert_eq!(counter.count, 2);
    assert_eq!(decrement(&mut counter), Ok(()));
    assert_eq!(counter.count, 1);
    reset(&mut counter);
    assert_eq!(counter.count, 0);
    assert_eq!(counter.authority, OWNER);
}

#[test]
fn counter_refuses_to_go_below_zero() {
    let mut counter = Counter { authority: OWNER, count: 0 };
    assert_eq!(decrement(&mut counter), Err(CounterError::AlreadyZero));
    assert_eq!(counter.count, 0);
}

#[test]
fn counter_decrement_undoes_increment() {
    let mut counter = Counter { authority: OWNER, count: 41 };
    increment(&mut counter);
    assert_eq!(decrement(&mut counter), Ok(()));
    assert_eq!(counter.count, 41);
}

#[test]
fn day_number_rounds_toward_zero() {
    assert_eq!(day_number(0), 0);
    assert_eq!(day_number(DAY - 1), 0);
    assert_eq!(day_number(DAY), 1);
    assert_eq!(day_number(1_700_000_000), 19_675);
    assert_eq!(day_number(-1), 0);
    assert_eq!(day_number(-DAY), -1);
    assert_eq!(day_number(i64::MIN), i64::MIN / DAY);
}

#[test]
fn open_account_needs_minimum_balance() {
    let mut account = blank_account();
    assert_eq!(open_account(&mut account, OWNER, MINIMUM_BALANCE - 1, 0), Err(BankError::BelowMinimumBalance));
    assert!(!account.is_active);
    let account = opened(MINIMUM_BALANCE, 3 * DAY + 5);
    assert_eq!(account.owner, OWNER);
    assert_eq!(account.balance, 10_000);
    assert!(account.is_active);
    assert!(!account.is_frozen);
    assert_eq!(account.daily_transferred, 0);
    assert_eq!(account.last_reset_day, 3);
}

#[test]
fn deposit_checks_in_order() {
    let mut account = opened(50_000, 0);
    assert_eq!(deposit(&mut account, 0), Err(BankError::ZeroAmount));
    assert_eq!(deposit(&mut account, 25_000), Ok(()));
    assert_eq!(account.balance, 75_000);
    assert_eq!(freeze_account(&mut account), Ok(()));
    assert_eq!(deposit(&mut account, 1), Err(BankError::AccountFrozen));
    assert_eq!(account.balance, 75_000);
    let mut closed = blank_account();
    assert_eq!(deposit(&mut closed, 1), Err(BankError::AccountNotActive));
}

#[test]
fn withdraw_keeps_minimum_balance() {
    let mut account = opened(100_000, 0);
    assert_eq!(withdraw(&mut account, 90_001, 10), Err(BankError::InsufficientBalance));
    assert_eq!(withdraw(&mut account, 90_000, 10), Ok(()));
    assert_eq!(account.balance, MINIMUM_BALANCE);
    assert_eq!(account.daily_transferred, 90_000);
    assert_eq!(withdraw(&mut account, 1, 20), Err(BankError::InsufficientBalance));
}

#[test]
fn withdraw_respects_daily_limit_and_resets_next_day() {
    let mut account = opened(5_000_000_000, 0);
    assert_eq!(withdraw(&mut account, DAILY_LIMIT, 100), Ok(()));
    assert_eq!(withdraw(&mut account, 1, 200), Err(BankError::DailyLimitExceeded));
    assert_eq!(account.daily_transferred, DAILY_LIMIT);
    assert_eq!(account.last_reset_day, 0);
    assert_eq!(withdraw(&mut account, 1, DAY + 1), Ok(()));
    assert_eq!(account.daily_transferred, 1);
    assert_eq!(account.last_reset_day, 1);
    assert_eq!(account.balance, 5_000_000_000 - DAILY_LIMIT - 1);
}

#[test]
fn refused_withdraw_changes_nothing() {
    let mut account = opened(5_000_000_000, 0);
    assert_eq!(withdraw(&mut account, 600_000_000, 0), Ok(()));
    assert_eq!(withdraw(&mut account, 5_000_000_000, DAY), Err(BankError::DailyLimitExceeded));
    assert_eq!(account.daily_transferred, 600_000_000);
    assert_eq!(account.last_reset_day, 0);
}

#[test]
fn withdraw_rejections() {
    let mut account = opened(50_000, 0);
    assert_eq!(withdraw(&mut account, 0, 0), Err(BankError::ZeroAmount));
    assert_eq!(freeze_account(&mut account), Ok(()));
    assert_eq!(withdraw(&mut account, 1, 0), Err(BankError::AccountFrozen));
    let mut closed = blank_account();
    assert_eq!(withdraw(&mut closed, 1, 0), Err(BankError::AccountNotActive));
}

#[test]
fn freeze_unfreeze_close() {
    let mut account = opened(50_000, 0);
    assert_eq!(unfreeze_account(&mut account), Err(BankError::AccountFrozen));
    assert_eq!(freeze_account(&mut account), Ok(()));
    assert!(account.is_frozen);
    assert_eq!(freeze_account(&mut account), Err(BankError::AccountFrozen));
    assert_eq!(close_account(&account), Err(BankError::AccountFrozen));
    assert_eq!(unfreeze_account(&mut account), Ok(()));
    assert!(!account.is_frozen);
    assert_eq!(close_account(&account), Ok(()));
    let mut closed = blank_account();
    assert_eq!(freeze_account(&mut closed), Err(BankError::AccountNotActive));
    assert_eq!(unfreeze_account(&mut closed), Err(BankError::AccountNotActive));
    assert_eq!(close_account(&closed), Err(BankError::AccountNotActive));
}

#[test]
fn profile_space_counts_name_bytes() {
    assert_eq!(UserProfile::space(""), 60);
    assert_eq!(UserProfile::space("alice"), 65);
    assert_eq!(UserProfile::space("çağrı"), 68);
}

#[test]
fn register_user_validates_name() {
    let mut profile = blank_profile();
    assert_eq!(register_user(&mut profile, OWNER, String::new(), 5).err(), Some(EventError::EmptyUsername));
    assert_eq!(
        register_user(&mut profile, OWNER, "x".repeat(33), 5).err(),
        Some(EventError::UsernameTooLong)
    );
    assert_eq!(
        register_user(&mut profile, OWNER, "ğ".repeat(17), 5).err(),
        Some(EventError::UsernameTooLong)
    );
    assert_eq!(profile.username, "");
    let event = register_user(&mut profile, OWNER, "x".repeat(32), 1_700_000_000).ok().unwrap();
    assert_eq!(event.user, OWNER);
    assert_eq!(event.username, "x".repeat(32));
    assert_eq!(event.timestamp, 1_700_000_000);
    assert_eq!(profile.authority, OWNER);
    assert_eq!(profile.username, "x".repeat(32));
    assert_eq!(profile.points, 0);
    assert_eq!(profile.message_count, 0);
}

#[test]
fn send_message_counts_messages() {
    let mut profile = blank_profile();
    let recipient = [9u8; 32];
    assert_eq!(send_message(&mut profile, OWNER, recipient, String::new(), 1).err(), Some(EventError::EmptyMessage));
    assert_eq!(
        send_message(&mut profile, OWNER, recipient, "m".repeat(257), 1).err(),
        Some(EventError::MessageTooLong)
    );
    assert_eq!(profile.message_count, 0);
    let event = send_message(&mut profile, OWNER, recipient, "merhaba".to_string(), 42).ok().unwrap();
    assert_eq!(event.sender, OWNER);
    assert_eq!(event.recipient, recipient);
    assert_eq!(event.message, "merhaba");
    assert_eq!(event.timestamp, 42);
    assert_eq!(profile.message_count, 1);
    assert!(send_message(&mut profile, OWNER, recipient, "m".repeat(256), 43).is_ok());
    assert_eq!(profile.message_count, 2);
}

#[test]
fn award_points_accumulates() {
    let mut profile = blank_profile();
    assert_eq!(award_points(&mut profile, OWNER, 0, "x".to_string()).err(), Some(EventError::ZeroPoints));
    assert_eq!(award_points(&mut profile, OWNER, 5, String::new()).err(), Some(EventError::EmptyReason));
    let first = award_points(&mut profile, OWNER, 10, "welcome".to_string()).ok().unwrap();
    assert_eq!(first.total_points, 10);
    let second = award_points(&mut profile, OWNER, 15, "message".to_string()).ok().unwrap();
    assert_eq!(second.user, OWNER);
    assert_eq!(second.points, 15);
    assert_eq!(second.reason, "message");
    assert_eq!(second.total_points, 25);
    assert_eq!(profile.points, 25);
}

#[test]
fn transfer_sol_checks_amount_and_funds() {
    let sender = [1u8; 32];
    let recipient = [2u8; 32];
    assert_eq!(transfer_sol(sender, 1_000, recipient, 0).err(), Some(TransferError::ZeroAmount));
    assert_eq!(transfer_sol(sender, 1_000, recipient, 1_001).err(), Some(TransferError::InsufficientFunds));
    let t = transfer_sol(sender, 1_000, recipient, 1_000).ok().unwrap();
    assert_eq!(t.from, sender);
    assert_eq!(t.to, recipient);
    assert_eq!(t.lamports, 1_000);
}

#[test]
fn vault_tracks_deposits() {
    let mut vault = Vault { authority: [0u8; 32], total_deposited: 77 };
    initialize_vault(&mut vault, OWNER);
    assert_eq!(vault.authority, OWNER);
    assert_eq!(vault.total_deposited, 0);
    let vault_key = [5u8; 32];
    let depositor = [6u8; 32];
    assert_eq!(deposit_to_vault(&mut vault, vault_key, depositor, 0).err(), Some(TransferError::ZeroAmount));
    assert_eq!(vault.total_deposited, 0);
    let t = deposit_to_vault(&mut vault, vault_key, depositor, 300).ok().unwrap();
    assert_eq!((t.from, t.to, t.lamports), (depositor, vault_key, 300));
    deposit_to_vault(&mut vault, vault_key, depositor, 200).ok().unwrap();
    assert_eq!(vault.total_deposited, 500);
}

#[test]
fn vault_withdrawal_is_signed_by_vault_seeds() {
    let vault_key = [5u8; 32];
    assert_eq!(withdraw_from_vault(vault_key, 100, OWNER, 253, 0).err(), Some(TransferError::ZeroAmount));
    assert_eq!(withdraw_from_vault(vault_key, 100, OWNER, 253, 101).err(), Some(TransferError::InsufficientFunds));
    let signed = withdraw_from_vault(vault_key, 100, OWNER, 253, 100).ok().unwrap();
    assert_eq!((signed.transfer.from, signed.transfer.to, signed.transfer.lamports), (vault_key, OWNER, 100));
    assert_eq!(signed.signer_seeds, vec![b"vault".to_vec(), OWNER.to_vec(), vec![253u8]]);
    assert_eq!(vault_signer_seeds(&[1u8; 32], 7), vec![b"vault".to_vec(), vec![1u8; 32], vec![7u8]]);
}

fn same_account(a: &BankAccount, b: &BankAccount) -> bool {
    a.owner == b.owner
        && a.balance == b.balance
        && a.is_active == b.is_active
        && a.is_frozen == b.is_frozen
        && a.daily_transferred == b.daily_transferred
        && a.last_reset_day == b.last_reset_day
}

#[test]
fn balance_never_falls_below_minimum() {
    let mut account = opened(MINIMUM_BALANCE + 500, 0);
    let steps: [(bool, u64, i64); 8] = [
        (false, 400, 1),
        (false, 200, 2),
        (true, 1_000, 3),
        (false, 1_400, DAY),
        (false, 1, DAY + 1),
        (true, 5, 2 * DAY),
        (false, 6, 2 * DAY),
        (false, 5, 2 * DAY),
    ];
    for (is_deposit, amount, now) in steps {
        let _ = if is_deposit { deposit(&mut account, amount) } else { withdraw(&mut account, amount, now) };
        assert!(account.balance >= MINIMUM_BALANCE);
        assert!(account.daily_transferred <= DAILY_LIMIT);
    }
    assert_eq!(account.balance, 11_093);
}

#[test]
fn unfreeze_restores_frozen_account() {
    let before = opened(42_000, 5 * DAY);
    let mut account = opened(42_000, 5 * DAY);
    assert_eq!(freeze_account(&mut account), Ok(()));
    assert_eq!(unfreeze_account(&mut account), Ok(()));
    assert!(same_account(&account, &before));
}

#[test]
fn refused_requests_leave_account_unchanged() {
    let before = opened(42_000, 0);
    let mut account = opened(42_000, 0);
    assert!(deposit(&mut account, 0).is_err());
    assert!(withdraw(&mut account, 40_000, 0).is_err());
    assert!(unfreeze_account(&mut account).is_err());
    assert!(same_account(&account, &before));
}

#[test]
fn bank_withdraw_undoes_deposit() {
    let mut account = opened(20_000, 0);
    assert_eq!(deposit(&mut account, 5_000), Ok(()));
    assert_eq!(withdraw(&mut account, 5_000, 100), Ok(()));
    assert_eq!(account.balance, 20_000);
}

#[test]
fn withdraw_far_over_daily_limit_is_refused() {
    let mut account = opened(5_000_000_000, 0);
    assert_eq!(withdraw(&mut account, 1, 10), Ok(()));
    assert_eq!(withdraw(&mut account, u64::MAX, 20), Err(BankError::DailyLimitExceeded));
    assert_eq!(withdraw(&mut account, DAILY_LIMIT, 30), Err(BankError::DailyLimitExceeded));
    assert_eq!(account.balance, 5_000_000_000 - 1);
    assert_eq!(account.daily_transferred, 1);
}
