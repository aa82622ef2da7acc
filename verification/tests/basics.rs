use solana_workshop::borrowing::{add_lamports, deposit_simulation, first_word, string_length, VaultState as BorrowedVault};
use solana_workshop::functions::{calculate_fee, power, safe_wrapper, simulate_deposit, swap, transfer};
use solana_workshop::ownership::{gives_ownership, process_deposit, VaultState as OwnedVault};
use solana_workshop::structs::{BasisPoints, Lamports, VaultState};
use solana_workshop::text::{decimal_string, prefix_before};

#[test]
fn calculate_fee_takes_basis_points() {
    assert_eq!(calculate_fee(1_000_000, 300), 30_000);
    assert_eq!(calculate_fee(9_999, 1), 0);
    assert_eq!(calculate_fee(0, 10_000), 0);
}

#[test]
fn swap_splits_amount_into_output_and_fee() {
    assert_eq!(swap(1_000_000, 300), (970_000, 30_000));
    let (out, fee) = swap(12_345, 250);
    assert_eq!(out + fee, 12_345);
}

#[test]
fn transfer_reports_shortfall() {
    assert_eq!(transfer(1_000_000_000, 500_000_000), Ok(500_000_000));
    assert_eq!(
        transfer(500_000_000, 1_000_000_000),
        Err("Yetersiz bakiye: 500000000 < 1000000000".to_string())
    );
    assert_eq!(transfer(7, 7), Ok(0));
}

#[test]
fn power_multiplies_base() {
    assert_eq!(power(2, 10), 1024);
    assert_eq!(power(7, 0), 1);
    assert_eq!(power(0, 3), 0);
    assert_eq!(power(10, 19), 10_000_000_000_000_000_000);
}

#[test]
fn safe_wrapper_reads_value() {
    let value: u64 = 42;
    assert_eq!(safe_wrapper(&value), 42);
}

#[test]
fn simulate_deposit_accumulates() {
    let mut total: u64 = 0;
    simulate_deposit(&mut total, 500_000);
    simulate_deposit(&mut total, 300_000);
    assert_eq!(total, 800_000);
}

#[test]
fn decimal_string_renders_digits() {
    assert_eq!(decimal_string(0), "0");
    assert_eq!(decimal_string(7), "7");
    assert_eq!(decimal_string(10), "10");
    assert_eq!(decimal_string(u64::MAX), "18446744073709551615");
}

#[test]
fn ownership_examples() {
    assert_eq!(gives_ownership(), "yeni_veri");
    let vault = process_deposit(OwnedVault { total: 0, bump: 254 }, 500_000);
    assert_eq!(vault.total, 500_000);
    assert_eq!(vault.bump, 254);
}

#[test]
fn string_length_counts_bytes() {
    assert_eq!(string_length(&String::from("EscrowVault")), 11);
    assert_eq!(string_length(&String::from("ş")), 2);
    assert_eq!(string_length(&String::new()), 0);
}

#[test]
fn add_lamports_adds() {
    let mut balance: u64 = 0;
    add_lamports(&mut balance, 1_000_000);
    add_lamports(&mut balance, 500_000);
    assert_eq!(balance, 1_500_000);
}

#[test]
fn first_word_stops_at_space() {
    assert_eq!(first_word("hello world"), "hello");
    assert_eq!(first_word("single"), "single");
    assert_eq!(first_word(" leading"), "");
    assert_eq!(first_word("ğüş çö"), "ğüş");
    assert_eq!(first_word(""), "");
}

#[test]
fn prefix_before_any_separator() {
    assert_eq!(prefix_before("a-b-c", '-'), "a");
    assert_eq!(prefix_before("abc", '-'), "abc");
}

#[test]
fn deposit_simulation_adds_to_vault() {
    let mut vault = BorrowedVault { total: 0, bump: 254 };
    deposit_simulation(&mut vault, "8xJ3...", 1_000_000);
    assert_eq!(vault.total, 1_000_000);
    assert_eq!(vault.bump, 254);
}

#[test]
fn vault_state_lifecycle() {
    let vault = VaultState::new([3u8; 32], 252);
    assert_eq!(vault.total, 0);
    assert_eq!(vault.bump, 252);
    assert!(!vault.is_locked);
    assert_eq!(vault.authority, [3u8; 32]);

    let mut v = VaultState::new([4u8; 32], 251);
    v.deposit(300_000);
    v.deposit(200_000);
    assert_eq!(v.total, 500_000);
    assert_eq!(v.withdraw(100_000), Ok(400_000));
    assert_eq!(v.total, 400_000);
    assert_eq!(v.withdraw(500_000), Err("Yetersiz: 400000 < 500000".to_string()));
    assert_eq!(v.total, 400_000);
    assert!(!v.is_rent_exempt());
    v.deposit(1_639_280);
    assert!(v.is_rent_exempt());
}

#[test]
fn withdraw_after_deposit_restores_total() {
    let mut v = VaultState::new([0u8; 32], 1);
    v.deposit(77);
    let before = v.total;
    v.deposit(1_000);
    assert_eq!(v.withdraw(1_000), Ok(before));
}

#[test]
fn lamports_fee_in_basis_points() {
    assert_eq!(Lamports(1_000_000_000).fee(BasisPoints(300)), 30_000_000);
    assert_eq!(Lamports(5).fee(BasisPoints(10_000)), 5);
}
