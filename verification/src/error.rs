use vstd::prelude::*;
use vstd::string::StringExecFns;

verus! {

#[verifier::external_type_specification]
#[verifier::external_body]
pub struct ExMysqlRow(mysql::Row);

/// A result row lacked a column that was asked for.
#[derive(Debug)]
pub struct MissingColumnError {
    pub source: mysql::Row,
    pub index: usize,
}

/// The error for the column `index` missing from the row `source`.
pub fn missing_column_error(source: mysql::Row, index: usize) -> (e: MissingColumnError)
    ensures
        e.source == source,
        e.index == index,
{
    MissingColumnError { source, index }
}

/// The character of a decimal digit.
pub open spec fn digit_char(d: nat) -> char {
    (('0' as int) + d) as char
}

/// The decimal text of a number, without leading zeros.
pub open spec fn decimal_text(n: nat) -> Seq<char>
    decreases n,
{
    if n < 10 {
        seq![digit_char(n)]
    } else {
        decimal_text(n / 10).push(digit_char(n % 10))
    }
}

/// Writes a column number in decimal with `format!`.  Trusted, as std
/// documents `Display` for integers: decimal digits, without leading zeros.
#[verifier::external_body]
fn decimal_string(index: usize) -> (s: String)
    ensures
        s@ == decimal_text(index as nat),
{
    format!("{}", index)
}

impl MissingColumnError {
    /// The message shown for the error: which column could not be read.
    pub fn message(&self) -> (s: String)
        ensures
            s@ == "Unable to read column "@ + decimal_text(self.index as nat) + " from result"@,
    {
        let digits = decimal_string(self.index);
        let message = "Unable to read column ".to_owned();
        let message = message.concat(digits.as_str());
        message.concat(" from result")
    }

    /// A short description of the kind of error.
    pub fn description(&self) -> (s: &'static str)
        ensures
            s@ == "Missing the requested column number"@,
    {
        "Missing the requested column number"
    }
}

} // verus!
