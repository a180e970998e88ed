//! The five handshake messages and their wire format.
//!
//! A frame is a header of two big-endian `u16` (the magic number, then the
//! opcode) followed by the message's timestamps, each a big-endian `u128` of
//! milliseconds. The opcode alone fixes how many timestamps follow.

use crate::big_endian::{
    be_bytes, be_value, get_be, lemma_be_bytes_len, lemma_be_bytes_of_be_value,
    lemma_be_value_bound, lemma_be_value_of_be_bytes, lemma_radix_pow_values, put_be,
};
use vstd::prelude::*;

verus! {

/// The sentinel that opens every frame of this protocol.
pub const MAGIC_NUMBER: u16 = 0xBE47;

/// Bytes taken by the magic number and the opcode together.
pub const HEADER_SIZE: usize = 4;

/// Bytes taken by one timestamp.
pub const TIMESTAMP_SIZE: usize = 16;

/// One message of the handshake. Timestamps are milliseconds since the epoch
/// of the clock that took them.
#[derive(Debug, Clone, Copy, PartialEq, Eq, Structural)]
pub enum LatencyTest {
    InitialRequest { magic: u16 },
    FirstReply { magic: u16, server_time: u128 },
    FirstResponse { magic: u16, server_time: u128, client_time: u128 },
    SecondReply { magic: u16, server_time: u128, client_time: u128, server_ack_time: u128 },
    Final {
        magic: u16,
        server_time: u128,
        client_time: u128,
        server_ack_time: u128,
        client_ack_time: u128,
    },
}

/// Why a frame could not be read as a message.
#[derive(Debug, Clone, Copy, PartialEq, Eq, Structural)]
pub enum LatencyTestError {
    /// The frame ends before the bytes that its opcode calls for.
    Truncated,
    /// The frame does not open with the magic number.
    InvalidMagic,
    /// The opcode names none of the five messages.
    UnknownOpcode,
}

impl LatencyTestError {
    /// The error in words.
    pub open spec fn text(self) -> Seq<char> {
        match self {
            LatencyTestError::Truncated => "Error reading byte data"@,
            LatencyTestError::InvalidMagic => "Invalid magic number"@,
            LatencyTestError::UnknownOpcode => "Bad request number"@,
        }
    }

    /// The error in words, for a log or a display.
    pub fn message(&self) -> (text: &'static str)
        ensures
            text@ == self.text(),
    {
        match self {
            LatencyTestError::Truncated => "Error reading byte data",
            LatencyTestError::InvalidMagic => "Invalid magic number",
            LatencyTestError::UnknownOpcode => "Bad request number",
        }
    }
}

/// The length of a frame with the given opcode: the header, and one timestamp
/// more with each opcode from 2 on.
pub open spec fn frame_len(opcode: nat) -> nat
    recommends
        1 <= opcode <= 5,
{
    (4 + 16 * (opcode - 1)) as nat
}

/// The number held by the two bytes of `bytes` that start at `at`.
pub open spec fn u16_at(bytes: Seq<u8>, at: int) -> nat {
    be_value(bytes.subrange(at, at + 2))
}

/// The timestamp at position `index` behind the header of `bytes`.
pub open spec fn timestamp_at(bytes: Seq<u8>, index: int) -> u128 {
    be_value(bytes.subrange(4 + 16 * index, 20 + 16 * index)) as u128
}

impl LatencyTest {
    /// The magic number that the message carries.
    pub open spec fn magic(self) -> u16 {
        match self {
            LatencyTest::InitialRequest { magic } => magic,
            LatencyTest::FirstReply { magic, .. } => magic,
            LatencyTest::FirstResponse { magic, .. } => magic,
            LatencyTest::SecondReply { magic, .. } => magic,
            LatencyTest::Final { magic, .. } => magic,
        }
    }

    /// The opcode that stands for the message's variant on the wire.
    pub open spec fn opcode(self) -> u16 {
        match self {
            LatencyTest::InitialRequest { .. } => 1,
            LatencyTest::FirstReply { .. } => 2,
            LatencyTest::FirstResponse { .. } => 3,
            LatencyTest::SecondReply { .. } => 4,
            LatencyTest::Final { .. } => 5,
        }
    }

    /// The message's timestamps in the order of the wire.
    pub open spec fn timestamps(self) -> Seq<u128> {
        match self {
            LatencyTest::InitialRequest { .. } => seq![],
            LatencyTest::FirstReply { server_time, .. } => seq![server_time],
            LatencyTest::FirstResponse { server_time, client_time, .. } => seq![
                server_time,
                client_time,
            ],
            LatencyTest::SecondReply { server_time, client_time, server_ack_time, .. } => seq![
                server_time,
                client_time,
                server_ack_time,
            ],
            LatencyTest::Final {
                server_time,
                client_time,
                server_ack_time,
                client_ack_time,
                ..
            } => seq![server_time, client_time, server_ack_time, client_ack_time],
        }
    }

    /// A message is well formed when it carries the protocol's magic number.
    pub open spec fn wf(self) -> bool {
        self.magic() == MAGIC_NUMBER
    }

    /// The message with the given magic number and opcode whose timestamps are
    /// read from behind the header of `bytes`.
    pub open spec fn read_as(magic: u16, opcode: nat, bytes: Seq<u8>) -> LatencyTest {
        if opcode == 1 {
            LatencyTest::InitialRequest { magic }
        } else if opcode == 2 {
            LatencyTest::FirstReply { magic, server_time: timestamp_at(bytes, 0) }
        } else if opcode == 3 {
            LatencyTest::FirstResponse {
                magic,
                server_time: timestamp_at(bytes, 0),
                client_time: timestamp_at(bytes, 1),
            }
        } else if opcode == 4 {
            LatencyTest::SecondReply {
                magic,
                server_time: timestamp_at(bytes, 0),
                client_time: timestamp_at(bytes, 1),
                server_ack_time: timestamp_at(bytes, 2),
            }
        } else {
            LatencyTest::Final {
                magic,
                server_time: timestamp_at(bytes, 0),
                client_time: timestamp_at(bytes, 1),
                server_ack_time: timestamp_at(bytes, 2),
                client_ack_time: timestamp_at(bytes, 3),
            }
        }
    }

    /// The frame that carries the message: magic number, opcode, timestamps.
    pub open spec fn wire(self) -> Seq<u8> {
        be_bytes(self.magic() as nat, 2) + be_bytes(self.opcode() as nat, 2) + timestamps_wire(
            self.timestamps(),
        )
    }

    /// What a frame means. The magic number is judged first, then the opcode,
    /// then the length that the opcode calls for; bytes behind that length are
    /// not looked at.
    pub open spec fn parse(bytes: Seq<u8>) -> Result<LatencyTest, LatencyTestError> {
        if bytes.len() < 2 {
            Err(LatencyTestError::Truncated)
        } else if u16_at(bytes, 0) != MAGIC_NUMBER {
            Err(LatencyTestError::InvalidMagic)
        } else if bytes.len() < 4 {
            Err(LatencyTestError::Truncated)
        } else if u16_at(bytes, 2) < 1 || u16_at(bytes, 2) > 5 {
            Err(LatencyTestError::UnknownOpcode)
        } else if bytes.len() < frame_len(u16_at(bytes, 2)) {
            Err(LatencyTestError::Truncated)
        } else {
            Ok(LatencyTest::read_as(MAGIC_NUMBER, u16_at(bytes, 2), bytes))
        }
    }

    /// Writes the message as one frame.
    pub fn encode(&self) -> (buf: Vec<u8>)
        ensures
            buf@ == self.wire(),
            buf@.len() == frame_len(self.opcode() as nat),
    {
        let mut buf: Vec<u8> = Vec::new();
        proof {
            lemma_wire_len(*self);
            reveal_with_fuel(timestamps_wire, 5);
        }
        match self {
            LatencyTest::InitialRequest { magic } => {
                put_be(&mut buf, *magic as u128, 2);
                put_be(&mut buf, 1, 2);
            },
            LatencyTest::FirstReply { magic, server_time } => {
                put_be(&mut buf, *magic as u128, 2);
                put_be(&mut buf, 2, 2);
                put_be(&mut buf, *server_time, TIMESTAMP_SIZE);
            },
            LatencyTest::FirstResponse { magic, server_time, client_time } => {
                put_be(&mut buf, *magic as u128, 2);
                put_be(&mut buf, 3, 2);
                put_be(&mut buf, *server_time, TIMESTAMP_SIZE);
                put_be(&mut buf, *client_time, TIMESTAMP_SIZE);
            },
            LatencyTest::SecondReply { magic, server_time, client_time, server_ack_time } => {
                put_be(&mut buf, *magic as u128, 2);
                put_be(&mut buf, 4, 2);
                put_be(&mut buf, *server_time, TIMESTAMP_SIZE);
                put_be(&mut buf, *client_time, TIMESTAMP_SIZE);
                put_be(&mut buf, *server_ack_time, TIMESTAMP_SIZE);
            },
            LatencyTest::Final {
                magic,
                server_time,
                client_time,
                server_ack_time,
                client_ack_time,
            } => {
                put_be(&mut buf, *magic as u128, 2);
                put_be(&mut buf, 5, 2);
                put_be(&mut buf, *server_time, TIMESTAMP_SIZE);
                put_be(&mut buf, *client_time, TIMESTAMP_SIZE);
                put_be(&mut buf, *server_ack_time, TIMESTAMP_SIZE);
                put_be(&mut buf, *client_ack_time, TIMESTAMP_SIZE);
            },
        }
        assert(buf@ =~= self.wire());
        buf
    }

    /// Reads one frame. The error says what is wrong with the frame: see
    /// [`LatencyTest::parse`].
    pub fn decode(bytes: &[u8]) -> (r: Result<LatencyTest, LatencyTestError>)
        ensures
            r == LatencyTest::parse(bytes@),
    {
        if bytes.len() < 2 {
            return Err(LatencyTestError::Truncated);
        }
        let magic = read_u16(bytes, 0);
        if magic != MAGIC_NUMBER {
            return Err(LatencyTestError::InvalidMagic);
        }
        if bytes.len() < HEADER_SIZE {
            return Err(LatencyTestError::Truncated);
        }
        let opcode = read_u16(bytes, 2);
        if opcode < 1 || opcode > 5 {
            return Err(LatencyTestError::UnknownOpcode);
        }
        let fields: usize = (opcode - 1) as usize;
        if bytes.len() < HEADER_SIZE + TIMESTAMP_SIZE * fields {
            return Err(LatencyTestError::Truncated);
        }
        if opcode == 1 {
            Ok(LatencyTest::InitialRequest { magic })
        } else if opcode == 2 {
            let server_time = read_timestamp(bytes, 0);
            Ok(LatencyTest::FirstReply { magic, server_time })
        } else if opcode == 3 {
            let server_time = read_timestamp(bytes, 0);
            let client_time = read_timestamp(bytes, 1);
            Ok(LatencyTest::FirstResponse { magic, server_time, client_time })
        } else if opcode == 4 {
            let server_time = read_timestamp(bytes, 0);
            let client_time = read_timestamp(bytes, 1);
            let server_ack_time = read_timestamp(bytes, 2);
            Ok(LatencyTest::SecondReply { magic, server_time, client_time, server_ack_time })
        } else {
            let server_time = read_timestamp(bytes, 0);
            let client_time = read_timestamp(bytes, 1);
            let server_ack_time = read_timestamp(bytes, 2);
            let client_ack_time = read_timestamp(bytes, 3);
            Ok(
                LatencyTest::Final {
                    magic,
                    server_time,
                    client_time,
                    server_ack_time,
                    client_ack_time,
                },
            )
        }
    }
}

/// The bytes of a run of timestamps, one after the other.
pub open spec fn timestamps_wire(timestamps: Seq<u128>) -> Seq<u8>
    decreases timestamps.len(),
{
    if timestamps.len() == 0 {
        Seq::empty()
    } else {
        timestamps_wire(timestamps.drop_last()) + be_bytes(timestamps.last() as nat, 16)
    }
}

/// Reads the `u16` that starts at byte `at`.
fn read_u16(bytes: &[u8], at: usize) -> (value: u16)
    requires
        at + 2 <= bytes@.len(),
    ensures
        value == u16_at(bytes@, at as int),
{
    proof {
        lemma_be_value_bound(bytes@.subrange(at as int, at + 2));
        lemma_radix_pow_values();
    }
    get_be(bytes, at, 2) as u16
}

/// Reads the timestamp at position `index` behind the header.
fn read_timestamp(bytes: &[u8], index: usize) -> (value: u128)
    requires
        index < 4,
        20 + 16 * index <= bytes@.len(),
    ensures
        value == timestamp_at(bytes@, index as int),
{
    proof {
        lemma_be_value_bound(bytes@.subrange(4 + 16 * index, 20 + 16 * index));
        lemma_radix_pow_values();
    }
    get_be(bytes, HEADER_SIZE + TIMESTAMP_SIZE * index, TIMESTAMP_SIZE)
}

/// A frame is as long as its opcode says.
pub proof fn lemma_wire_len(m: LatencyTest)
    ensures
        m.wire().len() == frame_len(m.opcode() as nat),
{
    reveal_with_fuel(timestamps_wire, 5);
    lemma_be_bytes_len(m.magic() as nat, 2);
    lemma_be_bytes_len(m.opcode() as nat, 2);
    let ts = m.timestamps();
    assert forall|i: int| 0 <= i < ts.len() implies be_bytes(ts[i] as nat, 16).len() == 16 by {
        lemma_be_bytes_len(ts[i] as nat, 16);
    }
}

/// Behind the header and timestamps of a frame, whatever follows, the header
/// and each timestamp read back as they were written.
pub proof fn lemma_wire_reads_back(m: LatencyTest, rest: Seq<u8>)
    ensures
        (m.wire() + rest).len() == frame_len(m.opcode() as nat) + rest.len(),
        u16_at(m.wire() + rest, 0) == m.magic(),
        u16_at(m.wire() + rest, 2) == m.opcode(),
        forall|k: int|
            0 <= k < m.timestamps().len() ==> #[trigger] timestamp_at(m.wire() + rest, k)
                == m.timestamps()[k],
{
    reveal_with_fuel(timestamps_wire, 5);
    lemma_radix_pow_values();
    lemma_wire_len(m);
    let frame = m.wire() + rest;
    let ts = m.timestamps();
    lemma_be_bytes_len(m.magic() as nat, 2);
    lemma_be_bytes_len(m.opcode() as nat, 2);
    lemma_be_value_of_be_bytes(m.magic() as nat, 2);
    lemma_be_value_of_be_bytes(m.opcode() as nat, 2);
    assert(frame.subrange(0, 2) =~= be_bytes(m.magic() as nat, 2));
    assert(frame.subrange(2, 4) =~= be_bytes(m.opcode() as nat, 2));
    assert forall|j: int| 0 <= j < ts.len() implies be_bytes(#[trigger] ts[j] as nat, 16).len()
        == 16 by {
        lemma_be_bytes_len(ts[j] as nat, 16);
    }
    assert forall|k: int| 0 <= k < ts.len() implies #[trigger] timestamp_at(frame, k) == ts[k] by {
        lemma_be_value_of_be_bytes(ts[k] as nat, 16);
        assert(frame.subrange(4 + 16 * k, 20 + 16 * k) =~= be_bytes(ts[k] as nat, 16));
    }
}

/// Reading the frame of a well-formed message gives the message back.
pub proof fn lemma_decode_encode(m: LatencyTest)
    requires
        m.wf(),
    ensures
        LatencyTest::parse(m.wire()) == Ok::<LatencyTest, LatencyTestError>(m),
{
    lemma_decode_ignores_trailing_bytes(m, Seq::empty());
    assert(m.wire() + Seq::<u8>::empty() =~= m.wire());
}

/// Bytes that follow the frame of a well-formed message do not change what is
/// read from it.
pub proof fn lemma_decode_ignores_trailing_bytes(m: LatencyTest, rest: Seq<u8>)
    requires
        m.wf(),
    ensures
        LatencyTest::parse(m.wire() + rest) == Ok::<LatencyTest, LatencyTestError>(m),
{
    lemma_wire_reads_back(m, rest);
}

/// A frame that reads as a message opens with exactly the bytes that the
/// message is written as, and the message is well formed: no two different
/// runs of bytes of a frame's length mean the same message.
pub proof fn lemma_encode_decode(bytes: Seq<u8>, m: LatencyTest)
    requires
        LatencyTest::parse(bytes) == Ok::<LatencyTest, LatencyTestError>(m),
    ensures
        m.wf(),
        frame_len(m.opcode() as nat) <= bytes.len(),
        m.wire() == bytes.take(frame_len(m.opcode() as nat) as int),
{
    reveal_with_fuel(timestamps_wire, 5);
    lemma_radix_pow_values();
    let head = bytes.subrange(0, 2);
    let op = bytes.subrange(2, 4);
    lemma_be_value_bound(head);
    lemma_be_value_bound(op);
    lemma_be_bytes_of_be_value(head);
    lemma_be_bytes_of_be_value(op);
    let ts = m.timestamps();
    assert forall|k: int| 0 <= k < ts.len() implies be_bytes(#[trigger] ts[k] as nat, 16)
        == bytes.subrange(4 + 16 * k, 20 + 16 * k) by {
        let field = bytes.subrange(4 + 16 * k, 20 + 16 * k);
        lemma_be_value_bound(field);
        lemma_be_bytes_of_be_value(field);
        assert(ts[k] == timestamp_at(bytes, k));
    }
    assert(m.wire() =~= bytes.take(frame_len(m.opcode() as nat) as int));
}

/// Two bytes read as one number: the first counts 256 times the second.
pub proof fn lemma_u16_at(bytes: Seq<u8>, at: int)
    requires
        0 <= at,
        at + 2 <= bytes.len(),
    ensures
        u16_at(bytes, at) == bytes[at] * 256 + bytes[at + 1],
{
    reveal_with_fuel(be_value, 3);
    let pair = bytes.subrange(at, at + 2);
    assert(pair.last() == bytes[at + 1]);
    assert(pair.drop_last().last() == bytes[at]);
}

/// A frame whose first two bytes are not those of the magic number is refused
/// for that, whatever follows them.
pub proof fn lemma_wrong_magic_is_invalid(bytes: Seq<u8>)
    requires
        bytes.len() >= 2,
        bytes[0] != 0xBE || bytes[1] != 0x47,
    ensures
        LatencyTest::parse(bytes) == Err::<LatencyTest, LatencyTestError>(
            LatencyTestError::InvalidMagic,
        ),
{
    lemma_u16_at(bytes, 0);
}

/// A proper prefix of the frame of a well-formed message is refused as
/// truncated.
pub proof fn lemma_truncated_frame(m: LatencyTest, kept: nat)
    requires
        m.wf(),
        kept < m.wire().len(),
    ensures
        LatencyTest::parse(m.wire().take(kept as int)) == Err::<LatencyTest, LatencyTestError>(
            LatencyTestError::Truncated,
        ),
{
    lemma_wire_reads_back(m, Seq::empty());
    assert(m.wire() + Seq::<u8>::empty() =~= m.wire());
    let short = m.wire().take(kept as int);
    if kept >= 2 {
        assert(short.subrange(0, 2) =~= m.wire().subrange(0, 2));
    }
    if kept >= 4 {
        assert(short.subrange(2, 4) =~= m.wire().subrange(2, 4));
    }
}

/// A frame with the magic number and one of the five opcodes that is shorter
/// than its opcode calls for is refused as truncated, whatever its bytes
/// behind the header.
pub proof fn lemma_short_frame_is_truncated(bytes: Seq<u8>)
    requires
        bytes.len() >= 4,
        bytes[0] == 0xBE && bytes[1] == 0x47,
        bytes[2] == 0 && 1 <= bytes[3] <= 5,
        bytes.len() < frame_len(bytes[3] as nat),
    ensures
        LatencyTest::parse(bytes) == Err::<LatencyTest, LatencyTestError>(
            LatencyTestError::Truncated,
        ),
{
    lemma_u16_at(bytes, 0);
    lemma_u16_at(bytes, 2);
}

/// What a frame reads as is settled by the bytes of the frame alone: cut off
/// behind the length that its opcode calls for, it reads as the same message.
pub proof fn lemma_decode_reads_only_the_frame(bytes: Seq<u8>, m: LatencyTest)
    requires
        LatencyTest::parse(bytes) == Ok::<LatencyTest, LatencyTestError>(m),
    ensures
        LatencyTest::parse(bytes.take(frame_len(m.opcode() as nat) as int)) == Ok::<
            LatencyTest,
            LatencyTestError,
        >(m),
{
    lemma_encode_decode(bytes, m);
    lemma_decode_encode(m);
}

/// A frame with the magic number and a complete header whose opcode is 0, or 6
/// or more, is refused for its opcode, whatever follows the header.
pub proof fn lemma_unknown_opcode(bytes: Seq<u8>)
    requires
        bytes.len() >= 4,
        bytes[0] == 0xBE && bytes[1] == 0x47,
        bytes[2] * 256 + bytes[3] == 0 || bytes[2] * 256 + bytes[3] >= 6,
    ensures
        LatencyTest::parse(bytes) == Err::<LatencyTest, LatencyTestError>(
            LatencyTestError::UnknownOpcode,
        ),
{
    lemma_u16_at(bytes, 0);
    lemma_u16_at(bytes, 2);
}

} // verus!
