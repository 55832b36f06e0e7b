//! Verified core of a small command-line tool that looks up the USD price of
//! cryptocurrency ticker symbols: the outbound query URL for a symbol, the
//! classification of each HTTP response into a price or an error, the
//! user-visible output lines, and the per-symbol fan-out plan. The network
//! I/O and the task scheduling around this library are left to its caller,
//! which hands in each response's status code and parsed body.

pub mod api;
pub mod report;
pub mod text;
