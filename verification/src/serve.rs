//! Serving a command: what is done with the answer that comes back from
//! outside, until the handler's text can be delivered.

use vstd::prelude::*;
use crate::clock::{clock_text, world_clock, ZoneTable};
use crate::command::{deliver, delivery_of, Delivery, Handler, ParsedCommand};
use crate::dictionary::{definition_text, text_of, Definition};
use crate::failure::Failure;
use crate::rate::{conversion, conversion_of, rate_message, rate_wording, Conversion};
use crate::text::texts;

verus! {

/// What came back from outside.
#[derive(Debug)]
pub enum Reply {
    /// What the program wrote to standard output.
    Output(String),
    /// The entries that the lookup tool wrote.
    Entries(Vec<Definition>),
    /// The currency codes of the rate table, in the order of its rates.
    Codes(Vec<String>),
    /// The amount in the target currency.
    Amount(String),
    /// The value of the expression.
    Value(String),
    /// The time, in seconds since the start of 1970 (UTC).
    Moment(i64),
}

/// What is done next.
#[derive(Debug)]
pub enum Step {
    /// Compute the conversion with the rates at the two places, and come
    /// back with the amount.
    Convert(Conversion),
    /// Deliver the text: the command is served.
    Deliver(Delivery),
}

/// Says what is done with `reply`, the answer to what `handler` last asked
/// for while it serves `cmd`: programs' output is delivered, the first
/// definition is stripped of its list markers, the currencies are looked up
/// and then the converted amount is worded, the value of the expression is
/// delivered as it is, and the time is told for each city of `table`. An
/// answer that the handler did not ask for is a failure.
pub fn respond(
    handler: Handler,
    cmd: &ParsedCommand,
    table: &ZoneTable,
    reply: Reply,
) -> (r: Result<Step, Failure>)
    ensures
        match (handler, reply) {
            (Handler::Dictionary, Reply::Entries(entries)) => match text_of(entries@) {
                Some(text) => r matches Ok(Step::Deliver(d)) && d@ == delivery_of(handler, text),
                None => r matches Err(e) && e == Failure::BadPattern,
            },
            (Handler::Rate, Reply::Codes(codes)) => match conversion_of(texts(codes@), cmd@) {
                Some(c) => r matches Ok(Step::Convert(found)) && found@ == c,
                None => r matches Err(e) && e == Failure::UnknownCurrency,
            },
            (Handler::Rate, Reply::Amount(amount)) => r matches Ok(Step::Deliver(d)) && d@
                == delivery_of(handler, rate_wording(cmd@, amount@)),
            (Handler::Calculator, Reply::Value(value)) => r matches Ok(Step::Deliver(d)) && d@
                == delivery_of(handler, value@),
            (Handler::WorldClock, Reply::Moment(now)) => match clock_text(table@, now as int) {
                Some(text) => r matches Ok(Step::Deliver(d)) && d@ == delivery_of(handler, text),
                None => r matches Err(e) && e == Failure::NoTimeStamp,
            },
            (Handler::Speech, Reply::Output(output))
            | (Handler::Weather, Reply::Output(output))
            | (Handler::Search, Reply::Output(output))
            | (Handler::Run, Reply::Output(output)) => r matches Ok(Step::Deliver(d)) && d@
                == delivery_of(handler, output@),
            _ => r matches Err(e) && e == Failure::UnexpectedReply,
        },
{
    match (handler, reply) {
        (Handler::Dictionary, Reply::Entries(entries)) => match definition_text(&entries) {
            Ok(text) => Ok(Step::Deliver(deliver(handler, text.as_str()))),
            Err(e) => Err(e),
        },
        (Handler::Rate, Reply::Codes(codes)) => match conversion(&codes, cmd) {
            Ok(found) => Ok(Step::Convert(found)),
            Err(e) => Err(e),
        },
        (Handler::Rate, Reply::Amount(amount)) => {
            let message = rate_message(cmd, amount.as_str());
            Ok(Step::Deliver(deliver(handler, message.as_str())))
        },
        (Handler::Calculator, Reply::Value(value)) => Ok(
            Step::Deliver(deliver(handler, value.as_str())),
        ),
        (Handler::WorldClock, Reply::Moment(now)) => match world_clock(table, now) {
            Ok(text) => Ok(Step::Deliver(deliver(handler, text.as_str()))),
            Err(e) => Err(e),
        },
        (Handler::Speech, Reply::Output(output))
        | (Handler::Weather, Reply::Output(output))
        | (Handler::Search, Reply::Output(output))
        | (Handler::Run, Reply::Output(output)) => Ok(
            Step::Deliver(deliver(handler, output.as_str())),
        ),
        _ => Err(Failure::UnexpectedReply),
    }
}

} // verus!
