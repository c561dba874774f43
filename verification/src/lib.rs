//! Negotiation and measurement protocol of a one-directional network
//! throughput test between an initiator and a responder.
//!
//! The crate holds the protocol: the frame codec, the message set and its
//! wire encoding, the adaptive sizing heuristic, the session state machines
//! of both roles, and the drivers that run a session over any stream that
//! can be read, written and duplicated. Sockets and the command line live
//! with the caller.

pub mod channel;
pub mod client;
pub mod clock;
pub mod frame;
pub mod human;
pub mod initiator;
pub mod message;
pub mod mode;
pub mod payload;
pub mod protocol;
pub mod responder;
pub mod server;
pub mod session;
pub mod sizing;
pub mod transport;
pub mod wire;

pub use crate::frame::SerializedDataContainer;
pub use crate::frame::BUF_SIZE;
pub use crate::human::get_human_friendly_data_size_str;
pub use crate::message::NsptNegProtocol;
pub use crate::message::ProtocolVer;
pub use crate::message::PROTOCOL_VER;
pub use crate::mode::TestMode;
pub use crate::session::TOTAL_SEND_NEG_BYTES;
pub use crate::sizing::find_next_power_of_two;
pub use crate::sizing::get_transfer_size;
pub use crate::sizing::MIN_SEND_BYTES;
pub use crate::transport::Listener;
pub use crate::transport::ReadWriteStream;
pub use crate::transport::DEFAULT_SOCK_FILE;
pub use crate::transport::SERVER_PORT;
pub use crate::transport::SERVER_PORT_S;
