pub mod ack;
pub mod contract;
pub mod handshake;
pub mod packets;
pub mod state;
pub mod types;

pub use contract::{execute, instantiate, query};
pub use handshake::{ibc_channel_close, ibc_channel_connect, ibc_channel_open};
pub use packets::{ibc_packet_ack, ibc_packet_receive, ibc_packet_timeout};
pub use types::ContractError;
