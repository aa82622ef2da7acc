//! Reading unsigned amounts from text, through `str::parse::<u64>`.

use vstd::prelude::*;

verus! {

/// Why a text is not an unsigned 64-bit number.
#[derive(Debug, PartialEq, Eq, Structural)]
pub enum ParseIntError {
    /// The text is empty.
    Empty,
    /// The text holds a character that is not a decimal digit where one is
    /// expected (a sign on its own counts as such).
    InvalidDigit,
    /// The number is larger than `u64::MAX`.
    PosOverflow,
}

/// Whether `c` is one of `0`..`9`.
pub open spec fn is_digit(c: char) -> bool {
    48 <= (c as u32) && (c as u32) <= 57
}

/// The numeric value of a decimal digit character.
pub open spec fn digit_value(c: char) -> nat {
    ((c as u32) - 48) as nat
}

/// The value of a string of decimal digits, most significant first.
pub open spec fn digits_value(d: Seq<char>) -> nat
    decreases d.len(),
{
    if d.len() == 0 {
        0
    } else {
        digits_value(d.drop_last()) * 10 + digit_value(d.last())
    }
}

/// The text without one leading `+`, if it has one.
pub open spec fn unsigned_digits(s: Seq<char>) -> Seq<char> {
    if s.len() > 0 && s[0] == '+' { s.drop_first() } else { s }
}

/// Whether the text is an optional `+` followed by one or more digits.
pub open spec fn well_formed_number(s: Seq<char>) -> bool {
    let d = unsigned_digits(s);
    d.len() > 0 && forall|i: int| 0 <= i < d.len() ==> is_digit(#[trigger] d[i])
}

/// The number the text spells, when it spells one that fits in a `u64`.
pub open spec fn parsed_u64(s: Seq<char>) -> Option<u64> {
    if well_formed_number(s) && digits_value(unsigned_digits(s)) <= u64::MAX {
        Some(digits_value(unsigned_digits(s)) as u64)
    } else {
        None
    }
}

/// The reason `str::parse::<u64>` gives for refusing a text.
pub uninterp spec fn parse_u64_error(s: Seq<char>) -> ParseIntError;

/// Calls `str::parse::<u64>` and keeps the kind of its error. As its
/// documentation states, the text is read as an optional `+` followed by
/// decimal digits, a value that fits is returned, the empty text is refused
/// as `Empty`, and a well-formed number too large for `u64` as `PosOverflow`.
/// Which of `InvalidDigit` and `PosOverflow` other texts get is only named,
/// not stated. `IntErrorKind`'s remaining kinds (`NegOverflow`, `Zero`) do
/// not arise for `u64` and are not told apart.
#[verifier::external_body]
pub fn parse_u64(s: &str) -> (r: Result<u64, ParseIntError>)
    ensures
        r matches Ok(v) ==> parsed_u64(s@) == Some(v),
        r matches Err(e) ==> e == parse_u64_error(s@),
        r is Ok <==> parsed_u64(s@) is Some,
        s@.len() == 0 <==> r matches Err(ParseIntError::Empty),
        well_formed_number(s@) && digits_value(unsigned_digits(s@)) > u64::MAX
            ==> r matches Err(ParseIntError::PosOverflow),
{
    match s.parse::<u64>() {
        Ok(v) => Ok(v),
        Err(e) => Err(match e.kind() {
            std::num::IntErrorKind::Empty => ParseIntError::Empty,
            std::num::IntErrorKind::PosOverflow => ParseIntError::PosOverflow,
            _ => ParseIntError::InvalidDigit,
        }),
    }
}

/// The text `ParseIntError`'s `Display` shows for each kind.
pub open spec fn parse_error_text(e: ParseIntError) -> Seq<char> {
    match e {
        ParseIntError::Empty => "cannot parse integer from empty string"@,
        ParseIntError::InvalidDigit => "invalid digit found in string"@,
        ParseIntError::PosOverflow => "number too large to fit in target type"@,
    }
}

impl ParseIntError {
    /// The message for this error.
    pub fn to_string(&self) -> (s: String)
        ensures
            s@ == parse_error_text(*self),
    {
        match self {
            ParseIntError::Empty => String::from_str("cannot parse integer from empty string"),
            ParseIntError::InvalidDigit => String::from_str("invalid digit found in string"),
            ParseIntError::PosOverflow => String::from_str("number too large to fit in target type"),
        }
    }
}

} // verus!
