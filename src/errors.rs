//! Functions that report failure through `Result`.
use vstd::prelude::*;
use vstd::string::*;

verus! {

/// Why an age was refused.
#[derive(Clone, Copy, Debug, PartialEq, Eq, Structural)]
pub enum ValidationError {
    NegativeAge,
    TooOld,
}

/// Accepts ages from 0 to 120.
pub fn validate_age(age: i32) -> (r: Result<i32, ValidationError>)
    ensures
        age < 0 ==> r == Err::<i32, ValidationError>(ValidationError::NegativeAge),
        age > 120 ==> r == Err::<i32, ValidationError>(ValidationError::TooOld),
        0 <= age <= 120 ==> r == Ok::<i32, ValidationError>(age),
{
    if age < 0 {
        Err(ValidationError::NegativeAge)
    } else if age > 120 {
        Err(ValidationError::TooOld)
    } else {
        Ok(age)
    }
}

pub open spec fn is_digit(c: char) -> bool {
    '0' <= c <= '9'
}

/// The number that a non-empty run of decimal digits spells.
pub open spec fn digits_value(s: Seq<char>) -> int
    decreases s.len(),
{
    if s.len() == 0 {
        0
    } else {
        digits_value(s.drop_last()) * 10 + (s.last() as int - '0' as int)
    }
}

pub open spec fn all_digits(s: Seq<char>) -> bool {
    s.len() > 0 && forall|i: int| 0 <= i < s.len() ==> is_digit(#[trigger] s[i])
}

/// The integer that `s` writes: an optional `+` or `-` followed by one or
/// more decimal digits, and nothing else.
pub open spec fn integer_literal(s: Seq<char>) -> Option<int> {
    if s.len() > 0 && s[0] == '-' && all_digits(s.skip(1)) {
        Some(-digits_value(s.skip(1)))
    } else if s.len() > 0 && s[0] == '+' && all_digits(s.skip(1)) {
        Some(digits_value(s.skip(1)))
    } else if all_digits(s) {
        Some(digits_value(s))
    } else {
        None
    }
}

/// The `i32` that `s` writes, when it writes one in range.
pub open spec fn parsed_i32(s: Seq<char>) -> Option<i32> {
    match integer_literal(s) {
        Some(v) => if i32::MIN <= v <= i32::MAX {
            Some(v as i32)
        } else {
            None
        },
        None => None,
    }
}

/// The text of the error that `str::parse::<i32>` reports for `s`.
pub uninterp spec fn parse_error_text(s: Seq<char>) -> Seq<char>;

/// Relies on `str::parse::<i32>` (`i32::from_str_radix` with radix 10): it
/// accepts an optional `+` or `-` followed by decimal digits, with no other
/// character, whose value fits in `i32`; any other input is an error, whose
/// text depends on the input alone.
#[verifier::external_body]
fn parse_i32(s: &str) -> (r: Result<i32, String>)
    ensures
        match r {
            Ok(n) => parsed_i32(s@) == Some(n),
            Err(text) => parsed_i32(s@) == None::<i32> && text@ == parse_error_text(s@),
        },
{
    match s.parse::<i32>() {
        Ok(n) => Ok(n),
        Err(e) => Err(e.to_string()),
    }
}

/// Twice the integer that `s` writes, or the parse error as text.
pub fn parse_and_double(s: &str) -> (r: Result<i32, String>)
    requires
        parsed_i32(s@) matches Some(n) ==> i32::MIN <= 2 * n <= i32::MAX,
    ensures
        match parsed_i32(s@) {
            Some(n) => r == Ok::<i32, String>((2 * n) as i32),
            None => r matches Err(text) && text@ == "Parse error: "@ + parse_error_text(s@),
        },
{
    match parse_i32(s) {
        Ok(n) => Ok(n * 2),
        Err(text) => {
            let mut msg = String::from_str("Parse error: ");
            msg.append(text.as_str());
            Err(msg)
        },
    }
}

/// The integer that `s` writes, when it is positive.
pub fn parse_positive(s: &str) -> (r: Result<i32, &'static str>)
    ensures
        match parsed_i32(s@) {
            Some(n) => if n > 0 {
                r == Ok::<i32, &str>(n)
            } else {
                r matches Err(m) && m@ == "Number must be positive"@
            },
            None => r matches Err(m) && m@ == "Invalid number format"@,
        },
{
    match parse_i32(s) {
        Ok(n) => if n > 0 {
            Ok(n)
        } else {
            Err("Number must be positive")
        },
        Err(_) => Err("Invalid number format"),
    }
}

} // verus!
