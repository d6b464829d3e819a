//! What can go wrong inside the library.

use vstd::prelude::*;

verus! {

/// The failures that the library itself reports.
#[derive(Clone, Copy, Debug, PartialEq, Eq, Structural)]
pub enum Failure {
    /// A currency code that the rate table does not hold.
    UnknownCurrency,
    /// A pattern that is no regular expression.
    BadPattern,
    /// A moment for which no time stamp can be had.
    NoTimeStamp,
    /// A city name with a character that does not fill exactly one column.
    BadCityName,
    /// A zone offset of a whole day or more.
    OffsetOutOfRange,
    /// An answer that the handler did not ask for.
    UnexpectedReply,
}

impl Failure {
    /// A short description for the user.
    pub fn message(&self) -> (text: String)
        ensures
            text@ == match *self {
                Failure::UnknownCurrency => "unknown currency code"@,
                Failure::BadPattern => "the pattern is no regular expression"@,
                Failure::NoTimeStamp => "no time stamp can be had"@,
                Failure::BadCityName => "a city name must be plain printable text"@,
                Failure::OffsetOutOfRange => "a zone offset must be less than a day"@,
                Failure::UnexpectedReply => "the handler did not ask for this answer"@,
            },
    {
        match self {
            Failure::UnknownCurrency => "unknown currency code".to_owned(),
            Failure::BadPattern => "the pattern is no regular expression".to_owned(),
            Failure::NoTimeStamp => "no time stamp can be had".to_owned(),
            Failure::BadCityName => "a city name must be plain printable text".to_owned(),
            Failure::OffsetOutOfRange => "a zone offset must be less than a day".to_owned(),
            Failure::UnexpectedReply => "the handler did not ask for this answer".to_owned(),
        }
    }
}

} // verus!
