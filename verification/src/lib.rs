//! Clock-independent latency measurement over a persistent duplex socket.
//!
//! Two peers exchange five messages that carry four timestamps between them:
//!
//! 1. the client sends a latency request;
//! 2. the server replies with its time;
//! 3. the client answers with the server's time and its own;
//! 4. the server replies with both and the time at which it acknowledged;
//! 5. the client adds the time at which that reply arrived.
//!
//! From the four timestamps the round trip is estimated without trusting either
//! clock: `(server_ack - server) - (client_ack - client) / 2`.
//!
//! The crate holds the wire format of the messages, the arithmetic of the
//! estimate, the client's connection state machine and the decisions of the
//! server's per-socket loop. Sockets, tasks and queues belong to the caller.

pub mod big_endian;
pub mod clock;
pub mod conduit;
pub mod dispatch;
pub mod handshake;
pub mod latency;
pub mod message;

pub use clock::unix_now_ms;
pub use message::LatencyTest;
pub use message::LatencyTestError;
pub use message::MAGIC_NUMBER;
