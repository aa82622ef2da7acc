//! Verified building blocks of a Solana/Anchor workshop: fee arithmetic,
//! balance bookkeeping, validation rules, and the state transitions of four
//! small Anchor programs (a counter, a bank account with custom errors, a
//! user profile that emits events, and a lamport vault).

pub mod functions;
pub mod ownership;
pub mod borrowing;
pub mod structs;
pub mod enums;
pub mod error_handling;
pub mod traits;
pub mod generics;
pub mod lifetimes;
pub mod text;
pub mod parsing;
pub mod counter;
pub mod custom_error;
pub mod event_emit;
pub mod sol_transfer;
pub mod anchor_patterns;
