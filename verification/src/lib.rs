//! The pure core of a keyboard-driven launcher. One typed line is split into
//! a command name and three parameters and routed to a handler; the handler
//! says what it needs from outside, and what is done with the answer, until
//! its text can be delivered. Running programs, talking to the network and
//! reading the clock are left to the caller.

pub mod clock;
pub mod command;
pub mod dictionary;
pub mod failure;
pub mod rate;
pub mod serve;
pub mod text;
