//! What the two peers' reactions come to when they meet: each step of the
//! handshake answers the one before, and four clock readings end in one
//! measurement.

use crate::conduit::{client_reaction, ClientActionView};
use crate::dispatch::{
    loop_reaction, server_reaction, HandledView, LoopActionView, SocketEventView, StopReason,
};
use crate::message::{lemma_decode_encode, LatencyTest, LatencyTestError, MAGIC_NUMBER};
use vstd::prelude::*;

verus! {

/// The frame that opens a handshake.
pub open spec fn request_frame() -> Seq<u8> {
    (LatencyTest::InitialRequest { magic: MAGIC_NUMBER }).wire()
}

/// The server's first reply, made when its clock stood at `server_time`.
pub open spec fn first_reply_frame(server_time: u128) -> Seq<u8> {
    (LatencyTest::FirstReply { magic: MAGIC_NUMBER, server_time }).wire()
}

/// The client's answer to the first reply, made when its clock stood at
/// `client_time`.
pub open spec fn first_response_frame(server_time: u128, client_time: u128) -> Seq<u8> {
    (LatencyTest::FirstResponse { magic: MAGIC_NUMBER, server_time, client_time }).wire()
}

/// The server's second reply, made when its clock stood at `server_ack_time`.
pub open spec fn second_reply_frame(
    server_time: u128,
    client_time: u128,
    server_ack_time: u128,
) -> Seq<u8> {
    (LatencyTest::SecondReply {
        magic: MAGIC_NUMBER,
        server_time,
        client_time,
        server_ack_time,
    }).wire()
}

/// To a request the server replies with the reading of its clock.
pub proof fn lemma_server_answers_request(now: u128)
    ensures
        server_reaction(LatencyTest::parse(request_frame()), now) == HandledView::Reply(
            first_reply_frame(now),
        ),
{
    lemma_decode_encode(LatencyTest::InitialRequest { magic: MAGIC_NUMBER });
}

/// To a first response the server replies with the two timestamps of that
/// very frame and the reading of its clock: nothing of another frame or
/// another reading enters a reply.
pub proof fn lemma_server_answers_response(server_time: u128, client_time: u128, now: u128)
    ensures
        server_reaction(LatencyTest::parse(first_response_frame(server_time, client_time)), now)
            == HandledView::Reply(second_reply_frame(server_time, client_time, now)),
{
    lemma_decode_encode(
        LatencyTest::FirstResponse { magic: MAGIC_NUMBER, server_time, client_time },
    );
}

/// To a first reply a client that holds a socket answers with the server's
/// timestamp and the reading of its own clock.
pub proof fn lemma_client_answers_first_reply(server_time: u128, now: u128)
    ensures
        client_reaction(true, LatencyTest::parse(first_reply_frame(server_time)), now)
            == ClientActionView::Send(first_response_frame(server_time, now)),
{
    lemma_decode_encode(LatencyTest::FirstReply { magic: MAGIC_NUMBER, server_time });
}

/// On a second reply the client reports what the three timestamps of the frame
/// and the reading of its own clock measure, with or without a socket.
pub proof fn lemma_client_reports(
    has_socket: bool,
    server_time: u128,
    client_time: u128,
    server_ack_time: u128,
    now: u128,
)
    ensures
        client_reaction(
            has_socket,
            LatencyTest::parse(second_reply_frame(server_time, client_time, server_ack_time)),
            now,
        ) == ClientActionView::Report(
            (LatencyTest::Final {
                magic: MAGIC_NUMBER,
                server_time,
                client_time,
                server_ack_time,
                client_ack_time: now,
            }).latency(),
        ),
{
    lemma_decode_encode(
        LatencyTest::SecondReply { magic: MAGIC_NUMBER, server_time, client_time, server_ack_time },
    );
}

/// A whole handshake. The server reads its clock at `t1` and `t3`, the client
/// its own at `t2` and `t4`. Each peer is given exactly the frame that the
/// other made, and the client ends with the server's interval `t3 - t1`, its
/// own `t4 - t2`, and twice the first less the second.
pub proof fn lemma_handshake_completes(t1: u128, t2: u128, t3: u128, t4: u128)
    ensures
        server_reaction(LatencyTest::parse(request_frame()), t1) == HandledView::Reply(
            first_reply_frame(t1),
        ),
        client_reaction(true, LatencyTest::parse(first_reply_frame(t1)), t2)
            == ClientActionView::Send(first_response_frame(t1, t2)),
        server_reaction(LatencyTest::parse(first_response_frame(t1, t2)), t3)
            == HandledView::Reply(second_reply_frame(t1, t2, t3)),
        client_reaction(true, LatencyTest::parse(second_reply_frame(t1, t2, t3)), t4) matches
            ClientActionView::Report(latency) && latency.server_processing == t3 - t1
            && latency.client_round_trip == t4 - t2 && latency.round_trip_doubled == 2 * (t3 - t1)
            - (t4 - t2),
{
    lemma_server_answers_request(t1);
    lemma_client_answers_first_reply(t1, t2);
    lemma_server_answers_response(t1, t2, t3);
    lemma_client_reports(true, t1, t2, t3, t4);
}

/// Neither peer acts on a message that is not its turn's: the server on a
/// reply or a final message, the client on a request, a response or a final
/// message. Such a message is handed back as unexpected.
pub proof fn lemma_unexpected_is_not_answered(m: LatencyTest, has_socket: bool, now: u128)
    ensures
        m is FirstReply || m is SecondReply || m is Final ==> server_reaction(
            Ok::<LatencyTest, LatencyTestError>(m),
            now,
        ) == HandledView::Unexpected(m),
        m is InitialRequest || m is FirstResponse || m is Final ==> client_reaction(
            has_socket,
            Ok::<LatencyTest, LatencyTestError>(m),
            now,
        ) == ClientActionView::Unexpected(m),
{
}

/// A frame that is not binary ends the socket's loop as a violation of the
/// protocol; so does a frame that a unit of work could not read.
pub proof fn lemma_violations_stop_the_loop(error: LatencyTestError)
    ensures
        loop_reaction(SocketEventView::NonBinary) == LoopActionView::Stop(
            StopReason::ProtocolViolation,
        ),
        loop_reaction(SocketEventView::ViolationReported(error)) == LoopActionView::Stop(
            StopReason::ProtocolViolation,
        ),
{
}

} // verus!
