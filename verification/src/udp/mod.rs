//! The UDP traffic generator and receiver: their settings and the
//! arithmetic that paces and bounds the sending.
pub mod client;
pub mod server;

use crate::stats::Bucket;
use vstd::prelude::*;

verus! {

/// `crossbeam::channel::Sender`, the end the sender and the receiver report
/// buckets to; carried through, nothing is claimed of it.
#[verifier::external_type_specification]
#[verifier::external_body]
#[verifier::reject_recursive_types(T)]
pub struct ExSender<T>(crossbeam::channel::Sender<T>);

/// The sending side: where it sends from and to, how many threads share the
/// work, the payload size, how many packets in all, and the packet rate.
pub struct Client {
    pub src_addr: String,
    pub dst_addr: String,
    pub thread_num: u8,
    pub mtu: usize,
    pub count: u128,
    pub rate_limit: u64,
    pub stats_tx: crossbeam::channel::Sender<Bucket>,
}

impl Client {
    /// A client with the default settings, reporting to `stats_tx`.
    pub fn new(stats_tx: crossbeam::channel::Sender<Bucket>) -> (c: Self)
        ensures
            c.src_addr@ == "0.0.0.0:3056"@,
            c.dst_addr@ == "127.0.0.1:3055"@,
            c.thread_num == 4,
            c.mtu == 512,
            c.count == 10000,
            c.rate_limit == 1000,
            c.stats_tx == stats_tx,
    {
        Client {
            src_addr: "0.0.0.0:3056".to_owned(),
            dst_addr: "127.0.0.1:3055".to_owned(),
            thread_num: 4,
            mtu: 512,
            count: 10000,
            rate_limit: 1000,
            stats_tx: stats_tx,
        }
    }
}

/// The pause, in microseconds, that each of `thread_num` sending threads
/// takes after a packet so that together they send `rate_limit` packets a
/// second: a second divided by each thread's share of the rate.
pub fn send_interval_micros(rate_limit: u64, thread_num: u8) -> (us: u64)
    requires
        thread_num > 0,
        rate_limit / (thread_num as u64) > 0,
    ensures
        us == 1000000u64 / (rate_limit / (thread_num as u64)),
{
    1000000 / (rate_limit / (thread_num as u64))
}

/// The pause is defined exactly when each thread's share of the rate is at
/// least one packet a second: for one thread or more, when the rate is at
/// least the number of threads.
pub proof fn lemma_interval_defined(rate_limit: u64, thread_num: u8)
    requires
        thread_num > 0,
    ensures
        (rate_limit / (thread_num as u64) > 0) <==> (rate_limit >= thread_num),
{
    let t = thread_num as u64;
    if rate_limit >= t {
        assert(rate_limit / t >= 1) by (nonlinear_arith)
            requires
                rate_limit >= t,
                t > 0,
        ;
    } else {
        assert(rate_limit / t == 0) by (nonlinear_arith)
            requires
                rate_limit < t,
                t > 0,
        ;
    }
}

/// The shared send counter: with `sent` packets sent so far out of `count`,
/// `None` when the sending is over, else the counter after one more packet.
pub fn next_send(sent: u128, count: u128) -> (next: Option<u128>)
    ensures
        next == (if sent >= count {
            None::<u128>
        } else {
            Some((sent + 1) as u128)
        }),
{
    if sent >= count {
        None
    } else {
        Some(sent + 1)
    }
}

/// How many more packets the shared counter lets through, starting at
/// `sent` out of `count`, when every turn applies [`next_send`].
pub open spec fn sends_left(sent: u128, count: u128) -> nat
    decreases count - sent,
{
    if sent >= count {
        0
    } else {
        1 + sends_left((sent + 1) as u128, count)
    }
}

/// Starting at `sent`, the sending threads send exactly `count - sent` more
/// packets (none once `count` is reached): all together they send `count`.
pub proof fn lemma_sends_exactly(sent: u128, count: u128)
    ensures
        sends_left(sent, count) == (if sent < count {
            (count - sent) as nat
        } else {
            0
        }),
    decreases count - sent,
{
    if sent < count {
        lemma_sends_exactly((sent + 1) as u128, count);
    }
}

/// The receiving side: the address it listens on, and how many threads read.
pub struct Server {
    pub addr: String,
    pub thread_num: u8,
    pub stats_tx: crossbeam::channel::Sender<Bucket>,
}

impl Server {
    /// A server with the default settings, reporting to `stats_tx`.
    pub fn new(stats_tx: crossbeam::channel::Sender<Bucket>) -> (s: Self)
        ensures
            s.addr@ == "0.0.0.0:3055"@,
            s.thread_num == 4,
            s.stats_tx == stats_tx,
    {
        Server { addr: "0.0.0.0:3055".to_owned(), thread_num: 4, stats_tx: stats_tx }
    }
}

} // verus!
