use vstd::prelude::*;

verus! {

/// The value of a setting: the value found in the environment, or the
/// default when the variable is not set.
pub fn get_default(found: Option<String>, default: &str) -> (value: String)
    ensures
        value@ == match found {
            Some(v) => v@,
            None => default@,
        },
{
    match found {
        Some(v) => v,
        None => default.to_owned(),
    }
}

// ---------------------------------------------------------------------------
// The port to listen on

/// The port the service listens on when none is configured.
pub const DEFAULT_PORT: u16 = 80;

/// Why the configured port cannot be used.
#[derive(Clone, Copy, Debug, PartialEq, Eq, Structural)]
pub enum ConfigError {
    /// The setting is not a decimal number from 0 to 65535.
    InvalidPort,
}

/// Whether a character is an ASCII decimal digit.
pub open spec fn is_decimal_digit(c: char) -> bool {
    '0' <= c && c <= '9'
}

/// The value of a string of decimal digits.
pub open spec fn decimal_value(digits: Seq<char>) -> nat
    decreases digits.len(),
{
    if digits.len() == 0 {
        0
    } else {
        decimal_value(digits.drop_last()) * 10 + ((digits.last() as int) - ('0' as int)) as nat
    }
}

/// The digits of an unsigned number: the text after an optional leading `+`.
pub open spec fn unsigned_digits(s: Seq<char>) -> Seq<char> {
    if s.len() > 0 && s[0] == '+' {
        s.drop_first()
    } else {
        s
    }
}

/// Whether a string reads as a `u16`: an optional `+`, then one or more
/// decimal digits, and nothing else, of value at most 65535.
pub open spec fn reads_as_u16(s: Seq<char>) -> bool {
    let d = unsigned_digits(s);
    &&& d.len() > 0
    &&& forall|i: int| 0 <= i < d.len() ==> is_decimal_digit(#[trigger] d[i])
    &&& decimal_value(d) <= 65535
}

#[verifier::external_type_specification]
#[verifier::external_body]
pub struct ExParseIntError(core::num::ParseIntError);

/// Calls `str::parse::<u16>`.  Trusted, as its documentation states it: the
/// text must be an optional `+` sign followed by decimal digits only, of a
/// value that fits; the number is then the value of the digits.
#[verifier::external_body]
fn parse_u16(s: &str) -> (r: Result<u16, core::num::ParseIntError>)
    ensures
        r is Ok <==> reads_as_u16(s@),
        r matches Ok(v) ==> v as nat == decimal_value(unsigned_digits(s@)),
{
    s.parse::<u16>()
}

/// The port to listen on, from the setting found in the environment: 80
/// when it is not set, else the number it holds.
pub fn resolve_port(setting: Option<String>) -> (r: Result<u16, ConfigError>)
    ensures
        setting is None ==> r == Ok::<u16, ConfigError>(DEFAULT_PORT),
        setting matches Some(s) ==> (r is Ok <==> reads_as_u16(s@)),
        setting matches Some(s) ==> (r matches Ok(p) ==> p as nat == decimal_value(unsigned_digits(s@))),
        r matches Err(e) ==> e == ConfigError::InvalidPort,
{
    match setting {
        None => Ok(DEFAULT_PORT),
        Some(s) => match parse_u16(s.as_str()) {
            Ok(p) => Ok(p),
            Err(_) => Err(ConfigError::InvalidPort),
        },
    }
}

} // verus!
