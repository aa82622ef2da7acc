//! Borrowed data with lifetimes: the longer of two strings, static text,
//! the first token of an identifier, and structs holding references.

use vstd::prelude::*;
use crate::text::{byte_len, byte_length, is_first_occurrence, prefix_before};

verus! {

/// The longer of `x` and `y` by byte length; `y` when they are as long.
pub fn longest<'a>(x: &'a str, y: &'a str) -> (r: &'a str)
    ensures
        r == (if byte_len(x@) > byte_len(y@) { x } else { y }),
{
    if byte_length(x) > byte_length(y) { x } else { y }
}

/// A message that lives as long as the program.
pub fn static_message() -> (m: &'static str)
    ensures
        m@ == "Solana program initialized"@,
{
    "Solana program initialized"
}

/// The part of `data` before its first underscore, or all of `data` when it
/// has none.
pub fn first_token(data: &str) -> (r: &str)
    ensures
        (forall|i: int| 0 <= i < data@.len() ==> data@[i] != '_') ==> r@ == data@,
        forall|k: int| is_first_occurrence(data@, '_', k) ==> r@ == data@.take(k),
{
    prefix_before(data, '_')
}

/// An account's name and configuration, both borrowed.
pub struct AccountMeta<'a> {
    pub name: &'a str,
    pub config: &'a str,
}

impl<'a> AccountMeta<'a> {
    /// `"<name>: <config>"`.
    pub fn summary(&self) -> (s: String)
        ensures
            s@ == self.name@ + ": "@ + self.config@,
    {
        let mut s = String::from_str(self.name);
        s.append(": ");
        s.append(self.config);
        s
    }
}

/// A label for the named account.
pub fn make_label(name: &str) -> (s: String)
    ensures
        s@ == "[label: "@ + name@ + "]"@,
{
    let mut s = String::from_str("[label: ");
    s.append(name);
    s.append("]");
    s
}

/// An instruction's authority and program, borrowed for different
/// lifetimes.
pub struct InstructionContext<'a, 'b> {
    pub authority: &'a str,
    pub program_id: &'b str,
}

impl<'a, 'b> InstructionContext<'a, 'b> {
    /// The key that matters for the instruction: its authority.
    pub fn relevant_key(&self) -> (k: &'a str)
        ensures
            k == self.authority,
    {
        self.authority
    }
}

} // verus!
