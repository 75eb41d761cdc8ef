//! A responder for UDP time queries that learns the true time from the `Date`
//! header of an HTTP reply instead of trusting the local clock's absolute value.
//!
//! The crate holds the decisions and the arithmetic: the offset between true
//! time and the local clock, the fixed 48-byte reply record, the reading of a
//! fetch's outcome and the refresher's state machine. Sockets, the HTTP
//! request and the scheduling of tasks belong to the program around it.

pub mod cache;
pub mod calendar;
pub mod failure;
pub mod packet;
pub mod refresher;
pub mod source;
