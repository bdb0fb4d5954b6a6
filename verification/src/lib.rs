//! Synthetic benchmark workloads and the command dispatch of a chat bot that
//! runs them on request.
//!
//! - [`command`] recognises a request in the text of a message.
//! - [`dispatch`] is the exchange that a message sets off: acknowledgment,
//!   workload, report.
//! - [`suite`] times the workloads and reports on them; [`primes`],
//!   [`memory`] and [`io`] are the workloads themselves.
//! - [`report`] and [`decimal`] write the texts, [`clock`] reads the time.

pub mod clock;
pub mod command;
pub mod decimal;
pub mod dispatch;
pub mod io;
pub mod memory;
pub mod primes;
pub mod report;
pub mod suite;
