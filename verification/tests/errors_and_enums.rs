use solana_workshop::enums::{
    describe_status, find_balance, parse_amount, process_instruction, EscrowError, Instruction, VaultStatus,
};
use solana_workshop::error_handling::{
    anchor_like_withdraw, apply_fee, parse_and_double, process_deposit, transfer, validate_amount, AppError,
};
use solana_workshop::parsing::{parse_u64, ParseIntError};

#[test]
fn escrow_error_codes_and_messages() {
    assert_eq!(EscrowError::InsufficientFunds.code(), 6000);
    assert_eq!(EscrowError::AccountLocked.code(), 6001);
    assert_eq!(EscrowError::InsufficientFunds.message(), "Yetersiz bakiye");
    assert_eq!(EscrowError::AccountLocked.message(), "Hesap kilitli");
}

#[test]
fn find_balance_by_name() {
    assert_eq!(find_balance("vault_1"), Some(5_000_000));
    assert_eq!(find_balance("vault_2"), Some(3_000_000));
    assert_eq!(find_balance("unknown"), None);
    assert_eq!(find_balance("vault_10"), None);
}

#[test]
fn parse_amount_reports_reason() {
    assert_eq!(parse_amount("1000000"), Ok(1_000_000));
    assert_eq!(parse_amount("+42"), Ok(42));
    assert_eq!(parse_amount("abc"), Err("parse hatası: invalid digit found in string".to_string()));
    assert_eq!(parse_amount(""), Err("parse hatası: cannot parse integer from empty string".to_string()));
    assert_eq!(
        parse_amount("18446744073709551616"),
        Err("parse hatası: number too large to fit in target type".to_string())
    );
}

#[test]
fn parse_u64_kinds() {
    assert_eq!(parse_u64("18446744073709551615"), Ok(u64::MAX));
    assert_eq!(parse_u64("-1"), Err(ParseIntError::InvalidDigit));
    assert_eq!(parse_u64("+"), Err(ParseIntError::InvalidDigit));
    assert_eq!(parse_u64(" 1"), Err(ParseIntError::InvalidDigit));
    assert_eq!(parse_u64(""), Err(ParseIntError::Empty));
    assert_eq!(parse_u64("99999999999999999999"), Err(ParseIntError::PosOverflow));
}

#[test]
fn describe_status_lines() {
    assert_eq!(describe_status(&VaultStatus::Active), "Vault aktif");
    assert_eq!(
        describe_status(&VaultStatus::Locked { reason: "dispute", until_slot: 300_000_000 }),
        "Vault kilitli — sebep: dispute, slot: 300000000"
    );
    assert_eq!(describe_status(&VaultStatus::Closed), "Vault kapalı");
}

#[test]
fn process_instruction_lines() {
    assert_eq!(
        process_instruction(Instruction::Deposit { amount: 1_000_000, bump: 254 }),
        "[deposit] amount=1000000, bump=254"
    );
    assert_eq!(process_instruction(Instruction::Withdraw { amount: 500_000 }), "[withdraw] amount=500000");
    assert_eq!(process_instruction(Instruction::Close), "[close] vault kapatıldı");
}

#[test]
fn parse_and_double_doubles() {
    assert_eq!(parse_and_double("500000"), Ok(1_000_000));
    assert_eq!(parse_and_double("abc"), Err(ParseIntError::InvalidDigit));
}

#[test]
fn transfer_refuses_zero_and_uncovered() {
    assert_eq!(
        transfer(1_000_000, 2_000_000),
        Err(AppError::InsufficientFunds { balance: 1_000_000, requested: 2_000_000 })
    );
    assert_eq!(transfer(1_000_000, 500_000), Ok(500_000));
    assert_eq!(transfer(0, 500_000), Err(AppError::InsufficientFunds { balance: 0, requested: 500_000 }));
    assert_eq!(transfer(10, 0), Err(AppError::ZeroAmount));
}

#[test]
fn app_error_messages() {
    assert_eq!(
        AppError::InsufficientFunds { balance: 1_000_000, requested: 2_000_000 }.to_string(),
        "Yetersiz bakiye: sahip=1000000, istek=2000000"
    );
    assert_eq!(AppError::ZeroAmount.to_string(), "Sıfır miktar gönderilemez");
    assert_eq!(
        AppError::ParseError(ParseIntError::InvalidDigit).to_string(),
        "Parse hatası: invalid digit found in string"
    );
    assert_eq!(AppError::AccountLocked.to_string(), "Hesap kilitli");
    assert_eq!(AppError::from(ParseIntError::Empty), AppError::ParseError(ParseIntError::Empty));
}

#[test]
fn process_deposit_converts_parse_errors() {
    assert_eq!(process_deposit("1000000"), Ok(1_000_000));
    assert_eq!(process_deposit("xyz"), Err(AppError::ParseError(ParseIntError::InvalidDigit)));
}

#[test]
fn validate_then_fee_chain() {
    assert_eq!(validate_amount(500_000), Ok(500_000));
    assert_eq!(validate_amount(0), Err(AppError::ZeroAmount));
    assert_eq!(apply_fee(500_000, 300), Ok(485_000));
    assert_eq!(apply_fee(1, 9_999), Ok(1));
}

#[test]
fn anchor_like_withdraw_checks_in_order() {
    assert_eq!(anchor_like_withdraw(1_000_000, 500_000, false), Ok(500_000));
    assert_eq!(anchor_like_withdraw(1_000_000, 0, false), Err(AppError::ZeroAmount));
    assert_eq!(anchor_like_withdraw(1_000_000, 500_000, true), Err(AppError::AccountLocked));
    assert_eq!(anchor_like_withdraw(0, 0, true), Err(AppError::ZeroAmount));
    assert_eq!(
        anchor_like_withdraw(100, 500, false),
        Err(AppError::InsufficientFunds { balance: 100, requested: 500 })
    );
    assert_eq!(anchor_like_withdraw(500, 500, false), Ok(0));
}
