//! The latency estimate that the four timestamps of a finished handshake give.
//!
//! The server's interval runs between its two readings of its own clock, the
//! client's between its two readings of its own, so neither depends on how the
//! two clocks stand to each other. The estimate is the server's interval less
//! half the client's. It is kept doubled, in half milliseconds, so that it
//! stays a whole number; every step is exact for all `u128` timestamps.

use crate::message::LatencyTest;
use vstd::prelude::*;

verus! {

/// A signed count of milliseconds, held as sign and magnitude.
#[derive(Debug, Clone, Copy, PartialEq, Eq, Structural)]
pub struct Millis {
    pub negative: bool,
    pub magnitude: u128,
}

impl View for Millis {
    type V = int;

    open spec fn view(&self) -> int {
        if self.negative {
            -(self.magnitude as int)
        } else {
            self.magnitude as int
        }
    }
}

impl Millis {
    /// Zero is written without a sign, so that equal counts are equal values.
    pub open spec fn wf(self) -> bool {
        self.negative ==> self.magnitude > 0
    }

    /// The time from `from` to `to`, negative where `to` is the earlier.
    pub fn between(from: u128, to: u128) -> (span: Millis)
        ensures
            span.wf(),
            span@ == to - from,
    {
        if to >= from {
            Millis { negative: false, magnitude: to - from }
        } else {
            Millis { negative: true, magnitude: from - to }
        }
    }
}

/// A signed count of half milliseconds, held as sign and a magnitude of
/// `high` times two to the 128 plus `low`.
#[derive(Debug, Clone, Copy, PartialEq, Eq, Structural)]
pub struct HalfMillis {
    pub negative: bool,
    pub high: u8,
    pub low: u128,
}

impl View for HalfMillis {
    type V = int;

    open spec fn view(&self) -> int {
        if self.negative {
            -wide_value(self.high, self.low)
        } else {
            wide_value(self.high, self.low)
        }
    }
}

impl HalfMillis {
    /// Zero is written without a sign, so that equal counts are equal values.
    pub open spec fn wf(self) -> bool {
        self.negative ==> wide_value(self.high, self.low) > 0
    }
}

/// The number whose lowest 128 bits are `low` and whose bits above are `high`:
/// `high` times two to the power 128, plus `low`.
pub open spec fn wide_value(high: u8, low: u128) -> int {
    high * 0x1_0000_0000_0000_0000_0000_0000_0000_0000int + low
}

/// What a finished handshake measured.
#[derive(Debug, Clone, Copy, PartialEq, Eq, Structural)]
pub struct Latency {
    /// Twice the round-trip estimate: twice the server's interval less the
    /// client's.
    pub round_trip_doubled: HalfMillis,
    /// From the server's first reading of its clock to its second.
    pub server_processing: Millis,
    /// From the client's first reading of its clock to its second.
    pub client_round_trip: Millis,
}

/// The numbers that a [`Latency`] holds.
pub struct LatencyView {
    pub round_trip_doubled: int,
    pub server_processing: int,
    pub client_round_trip: int,
}

impl View for Latency {
    type V = LatencyView;

    open spec fn view(&self) -> LatencyView {
        LatencyView {
            round_trip_doubled: self.round_trip_doubled@,
            server_processing: self.server_processing@,
            client_round_trip: self.client_round_trip@,
        }
    }
}

impl Latency {
    /// Each of the three counts writes zero without a sign.
    pub open spec fn wf(self) -> bool {
        &&& self.round_trip_doubled.wf()
        &&& self.server_processing.wf()
        &&& self.client_round_trip.wf()
    }
}

/// `2 * twice + once` as high and low part.
fn weighted_sum(twice: u128, once: u128) -> (sum: (u8, u128))
    ensures
        wide_value(sum.0, sum.1) == 2 * twice + once,
        sum.0 <= 2,
{
    let mut high: u8 = 0;
    let mut low: u128 = twice;
    if low > u128::MAX - twice {
        low = low - (u128::MAX - twice) - 1;
        high = high + 1;
    } else {
        low = low + twice;
    }
    if low > u128::MAX - once {
        low = low - (u128::MAX - once) - 1;
        high = high + 1;
    } else {
        low = low + once;
    }
    (high, low)
}

/// `larger - smaller` as high and low part.
fn wide_difference(larger: (u8, u128), smaller: (u8, u128)) -> (diff: (u8, u128))
    requires
        wide_value(larger.0, larger.1) >= wide_value(smaller.0, smaller.1),
    ensures
        wide_value(diff.0, diff.1) == wide_value(larger.0, larger.1) - wide_value(
            smaller.0,
            smaller.1,
        ),
{
    if larger.1 >= smaller.1 {
        (larger.0 - smaller.0, larger.1 - smaller.1)
    } else {
        (larger.0 - smaller.0 - 1, larger.1 + (u128::MAX - smaller.1) + 1)
    }
}

impl LatencyTest {
    /// The time that the server's clock counted between its two readings.
    pub open spec fn server_interval(self) -> int
        recommends
            self is Final,
    {
        match self {
            LatencyTest::Final { server_time, server_ack_time, .. } => server_ack_time
                - server_time,
            _ => 0,
        }
    }

    /// The time that the client's clock counted between its two readings.
    pub open spec fn client_interval(self) -> int
        recommends
            self is Final,
    {
        match self {
            LatencyTest::Final { client_time, client_ack_time, .. } => client_ack_time
                - client_time,
            _ => 0,
        }
    }

    /// What the four timestamps of a `Final` message measure: the server's
    /// interval, the client's, and twice the first less the second.
    pub open spec fn latency(self) -> LatencyView
        recommends
            self is Final,
    {
        LatencyView {
            round_trip_doubled: 2 * self.server_interval() - self.client_interval(),
            server_processing: self.server_interval(),
            client_round_trip: self.client_interval(),
        }
    }

    /// The two intervals and the doubled estimate that the timestamps of a
    /// `Final` message give. Only a `Final` message holds all four timestamps:
    /// the function is for no other.
    pub fn calculate_latency(&self) -> (latency: Latency)
        requires
            self is Final,
        ensures
            latency.wf(),
            latency@ == self.latency(),
    {
        match self {
            LatencyTest::Final {
                server_time,
                client_time,
                server_ack_time,
                client_ack_time,
                ..
            } => {
                // 2 * (ack - time) - (client_ack - client), with what is
                // added on one side and what is taken away on the other.
                let gained = weighted_sum(*server_ack_time, *client_time);
                let lost = weighted_sum(*server_time, *client_ack_time);
                let forward = gained.0 > lost.0 || (gained.0 == lost.0 && gained.1 >= lost.1);
                let round_trip_doubled = if forward {
                    let diff = wide_difference(gained, lost);
                    HalfMillis { negative: false, high: diff.0, low: diff.1 }
                } else {
                    let diff = wide_difference(lost, gained);
                    HalfMillis { negative: true, high: diff.0, low: diff.1 }
                };
                Latency {
                    round_trip_doubled,
                    server_processing: Millis::between(*server_time, *server_ack_time),
                    client_round_trip: Millis::between(*client_time, *client_ack_time),
                }
            },
            _ => vstd::pervasive::unreached(),
        }
    }
}

/// The measurement does not depend on how the two clocks stand to each other:
/// with both readings of the server's clock moved by one amount and both
/// readings of the client's by another, it is the same.
pub proof fn lemma_clock_offsets_cancel(
    magic: u16,
    server_time: u128,
    client_time: u128,
    server_ack_time: u128,
    client_ack_time: u128,
    server_offset: int,
    client_offset: int,
)
    requires
        0 <= server_time + server_offset <= u128::MAX,
        0 <= server_ack_time + server_offset <= u128::MAX,
        0 <= client_time + client_offset <= u128::MAX,
        0 <= client_ack_time + client_offset <= u128::MAX,
    ensures
        (LatencyTest::Final {
            magic,
            server_time: (server_time + server_offset) as u128,
            client_time: (client_time + client_offset) as u128,
            server_ack_time: (server_ack_time + server_offset) as u128,
            client_ack_time: (client_ack_time + client_offset) as u128,
        }).latency() == (LatencyTest::Final {
            magic,
            server_time,
            client_time,
            server_ack_time,
            client_ack_time,
        }).latency(),
{
}

} // verus!
