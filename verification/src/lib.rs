//! A synchronous, leveled, ANSI-colorized line logger for a single trading
//! process. Each accepted `log` call formats exactly one newline-terminated
//! line and writes it to exactly one of two streams (stdout or stderr),
//! chosen by severity, flushing that stream before returning.

pub mod enums;
pub mod datetime;
pub mod uuid;
pub mod identifiers;
pub mod sink;
pub mod logging;
pub mod laws;
