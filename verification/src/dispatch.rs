//! The server's side of one socket: what it owes to each frame, and what the
//! socket's loop does with each thing that happens to it.
//!
//! The loop waits on two sources at once, the socket and a bounded queue of
//! replies. Each frame that arrives is handed to a unit of work of its own,
//! which puts its reply on the queue; the loop writes out what the queue
//! yields. Waiting, scheduling and the queue are the caller's. With more than
//! one frame in flight on one socket the replies may be written in another
//! order than the frames came in: the protocol carries nothing to tell them
//! apart.

use crate::message::{LatencyTest, LatencyTestError, MAGIC_NUMBER};
use vstd::prelude::*;

verus! {

/// How many replies may wait on one socket's queue. A unit of work that finds
/// the queue full waits for room.
pub const OUTBOUND_CAPACITY: usize = 10;

/// What a unit of work makes of one frame.
#[derive(Debug, PartialEq, Eq)]
pub enum Handled {
    /// Put this frame on the socket's queue.
    Reply(Vec<u8>),
    /// The frame is a message that the server does not expect: note it, and
    /// send nothing.
    Unexpected(LatencyTest),
    /// The frame cannot be read: the connection is to be closed.
    Violation(LatencyTestError),
}

/// A [`Handled`] with the frame as a sequence of bytes.
pub enum HandledView {
    Reply(Seq<u8>),
    Unexpected(LatencyTest),
    Violation(LatencyTestError),
}

impl View for Handled {
    type V = HandledView;

    open spec fn view(&self) -> HandledView {
        match self {
            Handled::Reply(frame) => HandledView::Reply(frame@),
            Handled::Unexpected(message) => HandledView::Unexpected(*message),
            Handled::Violation(error) => HandledView::Violation(*error),
        }
    }
}

/// What the server owes to a frame that reads as `parsed` and is handled when
/// its clock stands at `now`.
pub open spec fn server_reaction(
    parsed: Result<LatencyTest, LatencyTestError>,
    now: u128,
) -> HandledView {
    match parsed {
        Err(error) => HandledView::Violation(error),
        Ok(LatencyTest::InitialRequest { .. }) => HandledView::Reply(
            (LatencyTest::FirstReply { magic: MAGIC_NUMBER, server_time: now }).wire(),
        ),
        Ok(LatencyTest::FirstResponse { server_time, client_time, .. }) => HandledView::Reply(
            (LatencyTest::SecondReply {
                magic: MAGIC_NUMBER,
                server_time,
                client_time,
                server_ack_time: now,
            }).wire(),
        ),
        Ok(message) => HandledView::Unexpected(message),
    }
}

/// Handles one frame that arrived, at the time `now` of the server's clock.
/// The outcome depends on this frame and this time alone.
pub fn handle_socket_message(bytes: &[u8], now: u128) -> (handled: Handled)
    ensures
        handled@ == server_reaction(LatencyTest::parse(bytes@), now),
{
    match LatencyTest::decode(bytes) {
        Err(error) => Handled::Violation(error),
        Ok(LatencyTest::InitialRequest { .. }) => {
            let reply = LatencyTest::FirstReply { magic: MAGIC_NUMBER, server_time: now };
            Handled::Reply(reply.encode())
        },
        Ok(LatencyTest::FirstResponse { server_time, client_time, .. }) => {
            let reply = LatencyTest::SecondReply {
                magic: MAGIC_NUMBER,
                server_time,
                client_time,
                server_ack_time: now,
            };
            Handled::Reply(reply.encode())
        },
        Ok(message) => Handled::Unexpected(message),
    }
}

/// One thing that happens to a socket's loop.
#[derive(Debug, PartialEq, Eq)]
pub enum SocketEvent {
    /// A binary frame arrived.
    Frame(Vec<u8>),
    /// A frame of another kind arrived.
    NonBinary,
    /// Receiving failed.
    ReceiveFailed,
    /// The peer closed the socket.
    Disconnected,
    /// The queue yielded a reply.
    ReplyReady(Vec<u8>),
    /// Writing a reply to the socket failed.
    WriteFailed,
    /// A unit of work met a frame that cannot be read.
    ViolationReported(LatencyTestError),
    /// The queue is closed and empty.
    QueueClosed,
}

/// Why a socket's loop ends.
#[derive(Debug, Clone, Copy, PartialEq, Eq, Structural)]
pub enum StopReason {
    Disconnected,
    SocketError,
    ProtocolViolation,
    QueueClosed,
}

/// What a socket's loop does next.
#[derive(Debug, PartialEq, Eq)]
pub enum LoopAction {
    /// Hand the frame to a unit of work of its own and go on waiting.
    Handle(Vec<u8>),
    /// Write the frame to the socket as a binary frame and go on waiting.
    Write(Vec<u8>),
    /// Nothing is to be done: go on waiting.
    Wait,
    /// Leave the loop and let the socket go.
    Stop(StopReason),
}

/// A [`SocketEvent`] with its frame as a sequence of bytes.
pub enum SocketEventView {
    Frame(Seq<u8>),
    NonBinary,
    ReceiveFailed,
    Disconnected,
    ReplyReady(Seq<u8>),
    WriteFailed,
    ViolationReported(LatencyTestError),
    QueueClosed,
}

/// A [`LoopAction`] with its frame as a sequence of bytes.
pub enum LoopActionView {
    Handle(Seq<u8>),
    Write(Seq<u8>),
    Wait,
    Stop(StopReason),
}

impl View for SocketEvent {
    type V = SocketEventView;

    open spec fn view(&self) -> SocketEventView {
        match self {
            SocketEvent::Frame(frame) => SocketEventView::Frame(frame@),
            SocketEvent::NonBinary => SocketEventView::NonBinary,
            SocketEvent::ReceiveFailed => SocketEventView::ReceiveFailed,
            SocketEvent::Disconnected => SocketEventView::Disconnected,
            SocketEvent::ReplyReady(frame) => SocketEventView::ReplyReady(frame@),
            SocketEvent::WriteFailed => SocketEventView::WriteFailed,
            SocketEvent::ViolationReported(error) => SocketEventView::ViolationReported(*error),
            SocketEvent::QueueClosed => SocketEventView::QueueClosed,
        }
    }
}

impl View for LoopAction {
    type V = LoopActionView;

    open spec fn view(&self) -> LoopActionView {
        match self {
            LoopAction::Handle(frame) => LoopActionView::Handle(frame@),
            LoopAction::Write(frame) => LoopActionView::Write(frame@),
            LoopAction::Wait => LoopActionView::Wait,
            LoopAction::Stop(reason) => LoopActionView::Stop(*reason),
        }
    }
}

/// What a socket's loop owes to an event. A binary frame that holds a byte is
/// handed off unread, whatever it holds; an empty one is passed over. The loop
/// ends when the peer has closed the socket, when receiving or writing fails,
/// when a frame is not binary or cannot be read, and when the queue is closed.
pub open spec fn loop_reaction(event: SocketEventView) -> LoopActionView {
    match event {
        SocketEventView::Frame(frame) => if frame.len() > 0 {
            LoopActionView::Handle(frame)
        } else {
            LoopActionView::Wait
        },
        SocketEventView::NonBinary => LoopActionView::Stop(StopReason::ProtocolViolation),
        SocketEventView::ReceiveFailed => LoopActionView::Stop(StopReason::SocketError),
        SocketEventView::Disconnected => LoopActionView::Stop(StopReason::Disconnected),
        SocketEventView::ReplyReady(frame) => LoopActionView::Write(frame),
        SocketEventView::WriteFailed => LoopActionView::Stop(StopReason::SocketError),
        SocketEventView::ViolationReported(_) => LoopActionView::Stop(
            StopReason::ProtocolViolation,
        ),
        SocketEventView::QueueClosed => LoopActionView::Stop(StopReason::QueueClosed),
    }
}

/// Decides what a socket's loop does with an event.
pub fn handle_socket(event: SocketEvent) -> (action: LoopAction)
    ensures
        action@ == loop_reaction(event@),
{
    match event {
        SocketEvent::Frame(frame) => {
            if frame.len() > 0 {
                LoopAction::Handle(frame)
            } else {
                LoopAction::Wait
            }
        },
        SocketEvent::NonBinary => LoopAction::Stop(StopReason::ProtocolViolation),
        SocketEvent::ReceiveFailed => LoopAction::Stop(StopReason::SocketError),
        SocketEvent::Disconnected => LoopAction::Stop(StopReason::Disconnected),
        SocketEvent::ReplyReady(frame) => LoopAction::Write(frame),
        SocketEvent::WriteFailed => LoopAction::Stop(StopReason::SocketError),
        SocketEvent::ViolationReported(_) => LoopAction::Stop(StopReason::ProtocolViolation),
        SocketEvent::QueueClosed => LoopAction::Stop(StopReason::QueueClosed),
    }
}

} // verus!
