//! Circuit throughput measurement: the decisions and data handling behind a
//! UDP packet-loss and TCP round-trip-time tester, verified with Verus.
pub mod args;
pub mod stats;
pub mod udp;
