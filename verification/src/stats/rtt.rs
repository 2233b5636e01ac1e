//! Round-trip-time figures: the smallest and the largest round trip seen
//! and how many were seen.
use vstd::prelude::*;

verus! {

/// The smallest and largest round-trip time seen, in microseconds, and how
/// many were seen.
#[derive(Debug, Clone, Copy, PartialEq, Eq, Structural)]
pub struct TcpRtt {
    pub min: u128,
    pub max: u128,
    pub count: u64,
}

/// The figures after one more round trip of `rtt` microseconds.
pub open spec fn rtt_updated(r: TcpRtt, rtt: u128) -> TcpRtt {
    if r.count == 0 {
        TcpRtt { min: rtt, max: rtt, count: 1 }
    } else {
        TcpRtt {
            min: if rtt < r.min {
                rtt
            } else {
                r.min
            },
            max: if rtt > r.max {
                rtt
            } else {
                r.max
            },
            count: (r.count + 1) as u64,
        }
    }
}

impl TcpRtt {
    /// No round trip seen yet.
    pub fn new() -> (r: Self)
        ensures
            r == (TcpRtt { min: 0, max: 0, count: 0 }),
    {
        TcpRtt { min: 0, max: 0, count: 0 }
    }

    /// Takes one more round trip of `rtt` microseconds into account.
    pub fn update(&mut self, rtt: u128)
        requires
            old(self).count < u64::MAX,
        ensures
            *final(self) == rtt_updated(*old(self), rtt),
    {
        if self.count == 0 {
            self.min = rtt;
            self.max = rtt;
        } else {
            if rtt > self.max {
                self.max = rtt;
            }
            if rtt < self.min {
                self.min = rtt;
            }
        }
        self.count = self.count + 1;
    }
}

/// The figures after a run of round trips, oldest first.
pub open spec fn rtt_after(r: TcpRtt, samples: Seq<u128>) -> TcpRtt
    decreases samples.len(),
{
    if samples.len() == 0 {
        r
    } else {
        rtt_after(rtt_updated(r, samples[0]), samples.drop_first())
    }
}

/// Starting from no round trip, the figures count every round trip and hold
/// the smallest and the largest of them.
pub proof fn lemma_rtt_extremes(samples: Seq<u128>)
    requires
        samples.len() < u64::MAX,
    ensures
        rtt_after(TcpRtt { min: 0, max: 0, count: 0 }, samples).count == samples.len(),
        samples.len() > 0 ==> {
            let r = rtt_after(TcpRtt { min: 0, max: 0, count: 0 }, samples);
            &&& samples.contains(r.min)
            &&& samples.contains(r.max)
            &&& forall|i: int| 0 <= i < samples.len() ==> r.min <= #[trigger] samples[i] <= r.max
        },
{
    if samples.len() > 0 {
        let r1 = rtt_updated(TcpRtt { min: 0, max: 0, count: 0 }, samples[0]);
        assert(seq![samples[0]][0] == r1.min);
        lemma_rtt_after_seen(r1, samples.drop_first(), seq![samples[0]]);
        assert(seq![samples[0]] + samples.drop_first() =~= samples);
    }
}

/// Invariant behind [`lemma_rtt_extremes`]: figures that describe the round
/// trips `seen` still describe them once the `rest` are added.
proof fn lemma_rtt_after_seen(r: TcpRtt, rest: Seq<u128>, seen: Seq<u128>)
    requires
        seen.len() > 0,
        r.count == seen.len(),
        seen.len() + rest.len() < u64::MAX,
        seen.contains(r.min),
        seen.contains(r.max),
        forall|i: int| 0 <= i < seen.len() ==> r.min <= #[trigger] seen[i] <= r.max,
    ensures
        ({
            let f = rtt_after(r, rest);
            &&& f.count == seen.len() + rest.len()
            &&& (seen + rest).contains(f.min)
            &&& (seen + rest).contains(f.max)
            &&& forall|i: int| 0 <= i < (seen + rest).len() ==> f.min <= #[trigger] (seen + rest)[i] <= f.max
        }),
    decreases rest.len(),
{
    if rest.len() == 0 {
        assert(seen + rest =~= seen);
    } else {
        let r2 = rtt_updated(r, rest[0]);
        let seen2 = seen.push(rest[0]);
        assert(seen2 + rest.drop_first() =~= seen + rest);
        let wmin = choose|i: int| 0 <= i < seen.len() && seen[i] == r.min;
        let wmax = choose|i: int| 0 <= i < seen.len() && seen[i] == r.max;
        if r2.min == rest[0] {
            assert(seen2[seen.len() as int] == r2.min);
        } else {
            assert(seen2[wmin] == r2.min);
        }
        if r2.max == rest[0] {
            assert(seen2[seen.len() as int] == r2.max);
        } else {
            assert(seen2[wmax] == r2.max);
        }
        assert forall|i: int| 0 <= i < seen2.len() implies r2.min <= #[trigger] seen2[i] <= r2.max by {
            if i < seen.len() {
                assert(seen2[i] == seen[i]);
            }
        }
        lemma_rtt_after_seen(r2, rest.drop_first(), seen2);
    }
}

} // verus!
