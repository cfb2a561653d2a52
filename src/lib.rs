//! Recurring payments: a payer grants a bounded allowance, gateways trigger
//! scheduled debits against it, and each debit is split between a recipient,
//! the gateway and the protocol.
//!
//! - `calendar`, `schedule`: due-date advancement, by fixed durations or by
//!   calendar months.
//! - `fees`: the basis-point split of a charge.
//! - `settlement`: one atomic charge of a policy.
//! - `policy`, `gateway`, `setup`: creation and state changes of the records.
//! - `state`, `encoding`: the records, events and the fixed-width policy layout.
//!
//! Every operation takes the records it reads and writes as plain values and
//! either applies all of its changes or none.
pub mod calendar;
pub mod encoding;
pub mod error;
pub mod fees;
pub mod gateway;
pub mod policy;
pub mod schedule;
pub mod settlement;
pub mod setup;
pub mod state;
