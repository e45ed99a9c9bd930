//! Decision core of a small slash-command bot.
//!
//! The library holds everything the bot decides: how a gateway event is
//! classified, which interaction earns a callback and with what payload,
//! how a failed callback is absorbed at the dispatcher boundary, and in
//! what order the startup steps may run. The surrounding process (the
//! gateway connection, the HTTP calls, the task spawning) performs the
//! actions this library chooses.

pub mod handler;
pub mod model;
pub mod startup;
