//! The statistics side: the counters it keeps, the round-trip-time figures,
//! the decisions of its event loop, and the fixed-size frames that carry
//! reports over TCP.
pub mod frame;
pub mod rtt;
pub mod timer;

pub use frame::{padded, padding, unpadded, unpadding};
pub use rtt::{rtt_updated, TcpRtt};
pub use timer::{tick_due, Timer, TICK_MILLIS};
use vstd::prelude::*;

verus! {

/// `crossbeam::channel::Receiver`, the end the collector reads buckets
/// from; carried through, nothing is claimed of it.
#[verifier::external_type_specification]
#[verifier::external_body]
#[verifier::reject_recursive_types(T)]
pub struct ExReceiver<T>(crossbeam::channel::Receiver<T>);

/// How the statistics are shown.
#[derive(Debug, Clone, Copy, PartialEq, Eq, Structural)]
pub enum Output {
    Json,
    JsonPretty,
    Realtime,
}

impl Output {
    /// Whether this form of output prints a report at a given iteration:
    /// the JSON forms only print the final report, the realtime form prints
    /// every one.
    pub fn shows(&self, last_iter: bool) -> (r: bool)
        ensures
            r == (*self == Output::Realtime || last_iter),
    {
        match self {
            Output::Json => last_iter,
            Output::JsonPretty => last_iter,
            Output::Realtime => true,
        }
    }
}

/// A count of UDP packets sent (`tx`) and received (`rx`) since the last
/// report; both zero is the signal that the sending is over.
pub struct Bucket {
    pub rx: u128,
    pub tx: u128,
}

impl Bucket {
    /// Whether this bucket is the end-of-sending signal.
    pub open spec fn spec_is_quit(&self) -> bool {
        self.tx == 0 && self.rx == 0
    }
}

/// The report exchanged over TCP between the two ends: the packets one side
/// sent, the packets the other received, and the peer it came from.
#[derive(Debug)]
pub struct TcpBucket {
    pub tx: u64,
    pub rx: u64,
    pub peer: String,
}

/// The statistics collector: where its buckets come from, the TCP address it
/// serves reports on (empty: none), the TCP address it asks for reports
/// (empty: none), and how it shows the figures.
pub struct Stats {
    pub rx: crossbeam::channel::Receiver<Bucket>,
    pub tcp_server_bind: String,
    pub tcp_server_addr: String,
    pub output_type: Output,
}

impl Stats {
    /// A collector reading `rx`, with no TCP side and realtime output.
    pub fn new(rx: crossbeam::channel::Receiver<Bucket>) -> (s: Self)
        ensures
            s.rx == rx,
            s.tcp_server_bind@ == Seq::<char>::empty(),
            s.tcp_server_addr@ == Seq::<char>::empty(),
            s.output_type == Output::Realtime,
    {
        Stats {
            rx: rx,
            tcp_server_bind: String::new(),
            tcp_server_addr: String::new(),
            output_type: Output::Realtime,
        }
    }
}

/// Where the running totals of the collector stand: packets sent and
/// received in all (both wrap around at 2^64), the peer that reported the
/// sent count, the peer that reported the received count, and the
/// round-trip figures.
pub struct Monitor {
    pub total_tx: u64,
    pub total_rx: u64,
    pub peer: String,
    pub peer_server: String,
    pub tcp_rtt: TcpRtt,
}

/// `total` after `amount` more packets: the amount is cut to 64 bits and
/// the sum wraps around at 2^64.
pub open spec fn wrapping_total(total: u64, amount: u128) -> u64 {
    ((total + amount % 0x1_0000_0000_0000_0000) % 0x1_0000_0000_0000_0000) as u64
}

/// Adds `amount` packets to `total` the way an atomic `fetch_add` of
/// `amount as u64` does.
fn add_to_total(total: u64, amount: u128) -> (r: u64)
    ensures
        r == wrapping_total(total, amount),
{
    let a: u64 = (amount % 0x1_0000_0000_0000_0000u128) as u64;
    total.wrapping_add(a)
}

/// Only a bucket with both counts zero is the end-of-sending signal: a
/// bucket that counts any packet, sent or received, never ends the loop.
pub proof fn lemma_quit_signal(b: Bucket)
    ensures
        (b.tx != 0 || b.rx != 0) ==> !b.spec_is_quit(),
        (b.tx == 0 && b.rx == 0) ==> b.spec_is_quit(),
{
}

/// A count that keeps the total below 2^64 is added exactly; in
/// particular every bucket that counts a packet raises the total.
pub proof fn lemma_count_added(total: u64, amount: u128)
    requires
        total + amount < 0x1_0000_0000_0000_0000,
    ensures
        wrapping_total(total, amount) == total + amount,
        amount > 0 ==> wrapping_total(total, amount) > total,
{
}

/// The packet counts of a run of buckets, added up.
pub open spec fn sum_counts(counts: Seq<u128>) -> int
    decreases counts.len(),
{
    if counts.len() == 0 {
        0
    } else {
        counts[0] + sum_counts(counts.drop_first())
    }
}

/// `total` after a run of buckets with these counts, oldest first.
pub open spec fn totals_after(total: u64, counts: Seq<u128>) -> u64
    decreases counts.len(),
{
    if counts.len() == 0 {
        total
    } else {
        totals_after(wrapping_total(total, counts[0]), counts.drop_first())
    }
}

/// However the counts arrive, the running total is the start plus the sum
/// of all counts, modulo 2^64.
pub proof fn lemma_totals_wrap(total: u64, counts: Seq<u128>)
    ensures
        totals_after(total, counts) as int == (total + sum_counts(counts)) % 0x1_0000_0000_0000_0000,
    decreases counts.len(),
{
    let m: int = 0x1_0000_0000_0000_0000;
    if counts.len() > 0 {
        let rest = counts.drop_first();
        let r = sum_counts(rest);
        let a: int = total + (counts[0] as int) % m;
        lemma_totals_wrap(wrapping_total(total, counts[0]), rest);
        assert(wrapping_total(total, counts[0]) as int == a % m);
        vstd::arithmetic::div_mod::lemma_add_mod_noop_right(r, a, m);
        vstd::arithmetic::div_mod::lemma_add_mod_noop_right(total + r, counts[0] as int, m);
        assert(r + a == (total + r) + (counts[0] as int) % m);
        assert(total + sum_counts(counts) == (total + r) + counts[0]);
    }
}

/// The counts of two runs, one after the other, add up to the sum of each.
pub proof fn lemma_sum_counts_concat(a: Seq<u128>, b: Seq<u128>)
    ensures
        sum_counts(a + b) == sum_counts(a) + sum_counts(b),
    decreases a.len(),
{
    if a.len() > 0 {
        lemma_sum_counts_concat(a.drop_first(), b);
        assert((a + b).drop_first() =~= a.drop_first() + b);
    } else {
        assert(a + b =~= b);
    }
}

/// Counts never add up to less than nothing.
proof fn lemma_sum_counts_nonneg(counts: Seq<u128>)
    ensures
        sum_counts(counts) >= 0,
    decreases counts.len(),
{
    if counts.len() > 0 {
        lemma_sum_counts_nonneg(counts.drop_first());
    }
}

/// While the total stays below 2^64, it is exactly the start plus the sum
/// of all counts.
pub proof fn lemma_totals_exact(total: u64, counts: Seq<u128>)
    requires
        total + sum_counts(counts) < 0x1_0000_0000_0000_0000,
    ensures
        totals_after(total, counts) as int == total + sum_counts(counts),
{
    lemma_totals_wrap(total, counts);
    lemma_sum_counts_nonneg(counts);
}

/// While the total stays below 2^64, a longer run of buckets never shows a
/// smaller total than a shorter one: the counts shown never go down.
pub proof fn lemma_totals_never_decrease(total: u64, counts: Seq<u128>, j: int, k: int)
    requires
        0 <= j <= k <= counts.len(),
        total + sum_counts(counts) < 0x1_0000_0000_0000_0000,
    ensures
        totals_after(total, counts.take(j)) <= totals_after(total, counts.take(k)),
{
    let a = counts.take(j);
    let b = counts.subrange(j, k);
    let c = counts.skip(k);
    assert(a + b =~= counts.take(k));
    assert(counts.take(k) + c =~= counts);
    lemma_sum_counts_concat(a, b);
    lemma_sum_counts_concat(counts.take(k), c);
    lemma_sum_counts_nonneg(b);
    lemma_sum_counts_nonneg(c);
    lemma_totals_exact(total, a);
    lemma_totals_exact(total, counts.take(k));
}

/// What the collector learns from one turn of its event loop.
pub enum Event {
    /// A bucket from the UDP side.
    Bucket(Bucket),
    /// The UDP side's channel failed.
    BucketLost,
    /// A report that the TCP report server received from the other end.
    Report(TcpBucket),
    /// The TCP report server's channel failed.
    ReportLost,
}

/// What the event loop does after an event.
pub enum Step {
    /// Goes on with the periodic query and the realtime report.
    Continue,
    /// Stops at once, showing nothing more.
    Stop,
    /// Shows the final report and stops.
    Finish,
    /// Sends this query to the other end, takes in its answer, sends the
    /// quit report, then shows the final report and stops.
    FinalQuery(TcpBucket),
}

impl Monitor {
    /// Nothing counted yet, both peers shown as `localhost`.
    pub fn new() -> (m: Self)
        ensures
            m.total_tx == 0,
            m.total_rx == 0,
            m.peer@ == "localhost"@,
            m.peer_server@ == "localhost"@,
            m.tcp_rtt == (TcpRtt { min: 0, max: 0, count: 0 }),
    {
        Monitor {
            total_tx: 0,
            total_rx: 0,
            peer: "localhost".to_owned(),
            peer_server: "localhost".to_owned(),
            tcp_rtt: TcpRtt::new(),
        }
    }

    /// The query sent to the other end: the packets sent so far.
    pub fn query(&self) -> (q: TcpBucket)
        ensures
            q.tx == self.total_tx,
            q.rx == 0,
            q.peer@ == Seq::<char>::empty(),
    {
        TcpBucket { tx: self.total_tx, rx: 0, peer: String::new() }
    }

    /// Takes in the other end's answer to a periodic query, which took `rtt`
    /// microseconds: the round trip, the packets it received, and its address.
    pub fn on_reply(&mut self, reply: TcpBucket, rtt: u128)
        requires
            old(self).tcp_rtt.count < u64::MAX,
        ensures
            final(self).tcp_rtt == rtt_updated(old(self).tcp_rtt, rtt),
            final(self).total_rx == reply.rx,
            final(self).peer_server == reply.peer,
            final(self).total_tx == old(self).total_tx,
            final(self).peer == old(self).peer,
    {
        self.tcp_rtt.update(rtt);
        self.total_rx = reply.rx;
        self.peer_server = reply.peer;
    }

    /// Takes in the other end's answer to the final query, which took `rtt`
    /// microseconds: the round trip and the packets it received.
    pub fn on_final_reply(&mut self, reply: TcpBucket, rtt: u128)
        requires
            old(self).tcp_rtt.count < u64::MAX,
        ensures
            final(self).tcp_rtt == rtt_updated(old(self).tcp_rtt, rtt),
            final(self).total_rx == reply.rx,
            final(self).total_tx == old(self).total_tx,
            final(self).peer == old(self).peer,
            final(self).peer_server == old(self).peer_server,
    {
        self.tcp_rtt.update(rtt);
        self.total_rx = reply.rx;
    }
}

/// The quit report: zero packets sent.
pub fn quit_report() -> (q: TcpBucket)
    ensures
        q.tx == 0,
        q.rx == 0,
        q.peer@ == Seq::<char>::empty(),
{
    TcpBucket { tx: 0, rx: 0, peer: String::new() }
}

/// The report the TCP report server hands out: the packets received so far.
pub fn server_report(total_rx: u64) -> (q: TcpBucket)
    ensures
        q.tx == 0,
        q.rx == total_rx,
        q.peer@ == Seq::<char>::empty(),
{
    TcpBucket { tx: 0, rx: total_rx, peer: String::new() }
}

/// What the TCP report server passes on of a report it read from `peer`:
/// the packets that end sent.
pub fn received_report(read: &TcpBucket, peer: String) -> (q: TcpBucket)
    ensures
        q.tx == read.tx,
        q.rx == 0,
        q.peer == peer,
{
    TcpBucket { tx: read.tx, rx: 0, peer: peer }
}

impl Stats {
    /// Whether this collector serves reports over TCP.
    pub fn serves_reports(&self) -> (r: bool)
        ensures
            r == (self.tcp_server_bind@.len() > 0),
    {
        !self.tcp_server_bind.as_str().is_empty()
    }

    /// Whether a periodic query is due, given whether the timer ticked.
    pub fn query_due(&self, ticked: bool) -> (r: bool)
        ensures
            r == (ticked && self.tcp_server_addr@.len() > 0),
    {
        ticked && !self.tcp_server_addr.as_str().is_empty()
    }

    /// One turn of the event loop: updates the totals by `ev` and says what
    /// comes next.
    pub fn on_event(&self, mon: &mut Monitor, ev: Event) -> (step: Step)
        ensures
            match ev {
                Event::Bucket(b) => if b.tx == 0 && b.rx == 0 {
                    &&& *final(mon) == *old(mon)
                    &&& if self.tcp_server_addr@.len() > 0 {
                        &&& step matches Step::FinalQuery(q)
                        &&& q.tx == old(mon).total_tx
                        &&& q.rx == 0
                        &&& q.peer@ == Seq::<char>::empty()
                    } else {
                        step is Finish
                    }
                } else {
                    &&& step is Continue
                    &&& final(mon).total_tx == wrapping_total(old(mon).total_tx, b.tx)
                    &&& final(mon).total_rx == wrapping_total(old(mon).total_rx, b.rx)
                    &&& final(mon).peer == old(mon).peer
                    &&& final(mon).peer_server == old(mon).peer_server
                    &&& final(mon).tcp_rtt == old(mon).tcp_rtt
                },
                Event::Report(r) => if r.tx == 0 {
                    &&& step is Stop
                    &&& *final(mon) == *old(mon)
                } else {
                    &&& step is Continue
                    &&& final(mon).total_tx == r.tx
                    &&& final(mon).peer == r.peer
                    &&& final(mon).total_rx == old(mon).total_rx
                    &&& final(mon).peer_server == old(mon).peer_server
                    &&& final(mon).tcp_rtt == old(mon).tcp_rtt
                },
                Event::BucketLost => step is Continue && *final(mon) == *old(mon),
                Event::ReportLost => step is Continue && *final(mon) == *old(mon),
            },
    {
        match ev {
            Event::Bucket(b) => {
                if b.tx == 0 && b.rx == 0 {
                    if !self.tcp_server_addr.as_str().is_empty() {
                        Step::FinalQuery(mon.query())
                    } else {
                        Step::Finish
                    }
                } else {
                    mon.total_tx = add_to_total(mon.total_tx, b.tx);
                    mon.total_rx = add_to_total(mon.total_rx, b.rx);
                    Step::Continue
                }
            },
            Event::Report(r) => {
                if r.tx == 0 {
                    Step::Stop
                } else {
                    mon.total_tx = r.tx;
                    mon.peer = r.peer;
                    Step::Continue
                }
            },
            Event::BucketLost => Step::Continue,
            Event::ReportLost => Step::Continue,
        }
    }
}

} // verus!
