//! Decoding, encoding and stream framing of the basketball scorepad wire
//! protocol, with a shared slot that always holds the latest decoded frame.
pub mod protocol;
pub mod server;
pub mod store;
pub mod stream;
pub mod text;

pub use protocol::{BasketballProtocol, GameState, ParseError, Possession};
pub use server::{reply_for, BasketballServer, Session};
pub use store::SnapshotStore;
pub use stream::{parse_stream, StreamReassembler};
