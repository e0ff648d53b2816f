use vstd::prelude::*;

verus! {

/// Ordering mode of a relay channel.
#[derive(Clone, Copy, Debug, PartialEq, Eq, Structural)]
pub enum IbcOrder {
    Unordered,
    Ordered,
}

/// One end of a channel: a port and a channel id on one chain.
#[derive(Clone, Debug)]
pub struct IbcEndpoint {
    pub port_id: String,
    pub channel_id: String,
}

/// A relay channel as the host describes it during the handshake.
#[derive(Clone, Debug)]
pub struct IbcChannel {
    pub endpoint: IbcEndpoint,
    pub counterparty_endpoint: IbcEndpoint,
    pub order: IbcOrder,
    pub version: String,
    pub connection_id: String,
}

/// First step of the handshake, on the initiating or on the trying side.
#[derive(Clone, Debug)]
pub enum IbcChannelOpenMsg {
    OpenInit { channel: IbcChannel },
    OpenTry { channel: IbcChannel, counterparty_version: String },
}

/// Last step of the handshake, once the counterparty has answered.
#[derive(Clone, Debug)]
pub enum IbcChannelConnectMsg {
    OpenAck { channel: IbcChannel, counterparty_version: String },
    OpenConfirm { channel: IbcChannel },
}

/// A close request, started here or relayed from the counterparty.
#[derive(Clone, Debug)]
pub enum IbcChannelCloseMsg {
    CloseInit { channel: IbcChannel },
    CloseConfirm { channel: IbcChannel },
}

/// A single cross-chain message.
#[derive(Clone, Debug)]
pub struct IbcPacket {
    pub src: IbcEndpoint,
    pub dest: IbcEndpoint,
    pub sequence: u64,
    pub data: Vec<u8>,
}

#[derive(Clone, Debug)]
pub struct IbcPacketReceiveMsg {
    pub packet: IbcPacket,
}

#[derive(Clone, Debug)]
pub struct IbcPacketAckMsg {
    pub acknowledgement: Vec<u8>,
    pub original_packet: IbcPacket,
}

#[derive(Clone, Debug)]
pub struct IbcPacketTimeoutMsg {
    pub packet: IbcPacket,
}

/// Lifecycle of a channel that this contract has finalized.
#[derive(Clone, Copy, Debug, PartialEq, Eq, Structural)]
pub enum ChannelStatus {
    Open,
    Closed,
}

/// Lifecycle of an outbound packet.
#[derive(Clone, Copy, Debug, PartialEq, Eq, Structural)]
pub enum PacketStatus {
    InFlight,
    Acknowledged,
    TimedOut,
}

/// A finalized channel with its status and its two sequence cursors.
#[derive(Clone, Debug)]
pub struct ChannelRecord {
    pub channel: IbcChannel,
    pub status: ChannelStatus,
    /// Sequence of the last inbound packet handed to the business logic.
    pub recv_cursor: u64,
    /// Sequence of the last outbound packet sent.
    pub send_cursor: u64,
}

/// An outbound packet, by local channel id and sequence.
#[derive(Clone, Debug)]
pub struct PacketRecord {
    pub channel_id: String,
    pub sequence: u64,
    pub status: PacketStatus,
}

/// The durable state of one contract instance.
#[derive(Clone, Debug)]
pub struct ContractState {
    /// The only application version this contract negotiates.
    pub version: String,
    pub channels: Vec<ChannelRecord>,
    pub packets: Vec<PacketRecord>,
}

/// Setup of a new contract instance.
#[derive(Clone, Debug)]
pub struct InstantiateMsg {
    /// The application version that channels must agree on.
    pub ibc_version: String,
}

/// Structured errors; each aborts the transaction with no state change.
#[derive(Clone, Copy, Debug, PartialEq, Eq, Structural)]
pub enum ContractError {
    InvalidOrder,
    InvalidVersion,
    InvalidCounterpartyVersion,
    ChannelExists,
    UnknownChannel,
    ChannelNotOpen,
    EndpointMismatch,
    SequenceGap,
    SequenceOverflow,
    UnknownPacket,
    InvalidAcknowledgement,
}

/// What the business logic must do with the effect of an outbound packet.
#[derive(Clone, Copy, Debug, PartialEq, Eq, Structural)]
pub enum PacketEffect {
    /// Nothing: the packet was already resolved.
    NoEffect,
    /// Keep the effect started when the packet was sent.
    Finalize,
    /// Undo the effect started when the packet was sent.
    Reverse,
}

/// Response to the handshake and to the terminal packet callbacks.
#[derive(Clone, Copy, Debug, PartialEq, Eq, Structural)]
pub struct IbcBasicResponse {
    pub effect: PacketEffect,
}

/// What the business logic made of an inbound payload.
#[derive(Clone, Debug)]
pub enum BusinessOutcome {
    Applied { result: Vec<u8> },
    Rejected { reason: String },
}

/// Response to an inbound packet.
#[derive(Clone, Debug)]
pub struct IbcReceiveResponse {
    /// The encoded acknowledgement; `None` when the packet was a redelivery.
    pub acknowledgement: Option<Vec<u8>>,
    /// Whether the business outcome is to be committed.
    pub applied: bool,
}

pub open spec fn endpoint_eq(a: IbcEndpoint, b: IbcEndpoint) -> bool {
    a.port_id@ == b.port_id@ && a.channel_id@ == b.channel_id@
}

pub open spec fn channel_eq(a: IbcChannel, b: IbcChannel) -> bool {
    &&& endpoint_eq(a.endpoint, b.endpoint)
    &&& endpoint_eq(a.counterparty_endpoint, b.counterparty_endpoint)
    &&& a.order == b.order
    &&& a.version@ == b.version@
    &&& a.connection_id@ == b.connection_id@
}

pub fn endpoints_equal(a: &IbcEndpoint, b: &IbcEndpoint) -> (r: bool)
    ensures
        r == endpoint_eq(*a, *b),
{
    a.port_id == b.port_id && a.channel_id == b.channel_id
}

pub fn channels_equal(a: &IbcChannel, b: &IbcChannel) -> (r: bool)
    ensures
        r == channel_eq(*a, *b),
{
    endpoints_equal(&a.endpoint, &b.endpoint) && endpoints_equal(
        &a.counterparty_endpoint,
        &b.counterparty_endpoint,
    ) && a.order == b.order && a.version == b.version && a.connection_id == b.connection_id
}

} // verus!
