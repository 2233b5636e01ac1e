//! A simpler receiving side that reports its packet rate.
use vstd::prelude::*;

verus! {

/// Settings of the simple receiver.
pub struct Server<'a> {
    pub addr: &'a str,
    pub thread_num: u8,
}

/// A simple receiver with the default settings.
pub fn new<'a>() -> (s: Server<'a>)
    ensures
        s.addr@ == "0.0.0.0:3055"@,
        s.thread_num == 4,
{
    Server { addr: "0.0.0.0:3055", thread_num: 4 }
}

/// Seconds between two rate reports of the simple receiver.
pub const REPORT_PERIOD_SECS: u64 = 5;

/// The rate report after a period: with `total` packets received so far and
/// `last` at the previous report, the packets per second over the period,
/// or `None` when nothing new arrived.
pub fn period_rate(total: u64, last: u64) -> (rate: Option<u64>)
    ensures
        rate == (if total > 0 && total > last {
            Some(((total - last) / (REPORT_PERIOD_SECS as int)) as u64)
        } else {
            None::<u64>
        }),
{
    if total > 0 && total > last {
        Some((total - last) / REPORT_PERIOD_SECS)
    } else {
        None
    }
}

} // verus!
