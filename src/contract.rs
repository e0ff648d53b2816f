use crate::state::{chan_index, find_channel, find_packet, lookup_channel, packet_index};
use crate::types::{
    ChannelRecord, ChannelStatus, ContractError, ContractState, InstantiateMsg, PacketRecord,
    PacketStatus,
};
use vstd::prelude::*;

verus! {

/// Calls of the business logic that this layer takes part in.
#[derive(Clone, Debug)]
pub enum ExecuteMsg {
    /// Send `data` over the channel whose local id is `channel_id`.
    SendPacket { channel_id: String, data: Vec<u8> },
}

/// A packet to hand to the host for sending.
#[derive(Clone, Debug)]
pub struct ExecuteResponse {
    pub channel_id: String,
    pub sequence: u64,
    pub data: Vec<u8>,
}

#[derive(Clone, Debug)]
pub enum QueryMsg {
    ChannelStatus { channel_id: String },
    PacketStatus { channel_id: String, sequence: u64 },
}

#[derive(Clone, Copy, Debug, PartialEq, Eq, Structural)]
pub enum QueryResponse {
    Channel(Option<ChannelStatus>),
    Packet(Option<PacketStatus>),
}

/// Sequence that the next packet sent on channel `id` gets.
pub open spec fn send_result(chans: Seq<ChannelRecord>, id: Seq<char>) -> Result<u64, ContractError> {
    match lookup_channel(chans, id) {
        None => Err(ContractError::UnknownChannel),
        Some(r) => if r.status != ChannelStatus::Open {
            Err(ContractError::ChannelNotOpen)
        } else if r.send_cursor == u64::MAX {
            Err(ContractError::SequenceOverflow)
        } else {
            Ok((r.send_cursor + 1) as u64)
        },
    }
}

/// Channel records after a send on channel `id`: its send cursor advances.
pub open spec fn send_channels(chans: Seq<ChannelRecord>, id: Seq<char>) -> Seq<ChannelRecord> {
    if send_result(chans, id) is Ok {
        let i = chan_index(chans, id);
        chans.update(i, ChannelRecord { send_cursor: send_result(chans, id)->Ok_0, ..chans[i] })
    } else {
        chans
    }
}

/// Packet records after a send on channel `id`: the new packet is in flight.
pub open spec fn send_packets(chans: Seq<ChannelRecord>, pkts: Seq<PacketRecord>, id: String) -> Seq<PacketRecord> {
    if send_result(chans, id@) is Ok {
        pkts.push(PacketRecord { channel_id: id, sequence: send_result(chans, id@)->Ok_0, status: PacketStatus::InFlight })
    } else {
        pkts
    }
}

/// A fresh contract: it negotiates `msg.ibc_version` and knows no channel yet.
pub fn instantiate(msg: InstantiateMsg) -> (r: ContractState)
    ensures
        r.version@ == msg.ibc_version@,
        r.channels@.len() == 0,
        r.packets@.len() == 0,
{
    ContractState { version: msg.ibc_version, channels: Vec::new(), packets: Vec::new() }
}

/// Sends a packet: it gets the next sequence of its channel and is recorded
/// as in flight until an acknowledgement or a timeout resolves it.
pub fn execute(st: &mut ContractState, msg: ExecuteMsg) -> (r: Result<ExecuteResponse, ContractError>)
    ensures
        match msg {
            ExecuteMsg::SendPacket { channel_id, data } => {
                &&& match send_result(old(st).channels@, channel_id@) {
                    Ok(seq) => r is Ok && r->Ok_0.sequence == seq && r->Ok_0.channel_id@ == channel_id@
                        && r->Ok_0.data@ == data@,
                    Err(e) => r == Err::<ExecuteResponse, ContractError>(e),
                }
                &&& final(st).channels@ == send_channels(old(st).channels@, channel_id@)
                &&& final(st).packets@ == send_packets(old(st).channels@, old(st).packets@, channel_id)
            },
        },
        final(st).version == old(st).version,
{
    match msg {
        ExecuteMsg::SendPacket { channel_id, data } => {
            let i = match find_channel(&st.channels, &channel_id) {
                Some(i) => i,
                None => {
                    return Err(ContractError::UnknownChannel);
                },
            };
            if st.channels[i].status != ChannelStatus::Open {
                return Err(ContractError::ChannelNotOpen);
            }
            let cursor = st.channels[i].send_cursor;
            if cursor == u64::MAX {
                return Err(ContractError::SequenceOverflow);
            }
            let sequence = cursor + 1;
            st.channels[i].send_cursor = sequence;
            let reply_id = channel_id.clone();
            st.packets.push(PacketRecord { channel_id, sequence, status: PacketStatus::InFlight });
            Ok(ExecuteResponse { channel_id: reply_id, sequence, data })
        },
    }
}

/// Reads the status of a channel or of an outbound packet.
pub fn query(st: &ContractState, msg: &QueryMsg) -> (r: QueryResponse)
    ensures
        match *msg {
            QueryMsg::ChannelStatus { channel_id } => r == QueryResponse::Channel(
                match lookup_channel(st.channels@, channel_id@) {
                    Some(c) => Some(c.status),
                    None => None,
                },
            ),
            QueryMsg::PacketStatus { channel_id, sequence } => r == QueryResponse::Packet(
                if packet_index(st.packets@, channel_id@, sequence) >= 0 {
                    Some(st.packets@[packet_index(st.packets@, channel_id@, sequence)].status)
                } else {
                    None
                },
            ),
        },
{
    match msg {
        QueryMsg::ChannelStatus { channel_id } => match find_channel(&st.channels, channel_id) {
            Some(i) => QueryResponse::Channel(Some(st.channels[i].status)),
            None => QueryResponse::Channel(None),
        },
        QueryMsg::PacketStatus { channel_id, sequence } => match find_packet(&st.packets, channel_id, *sequence) {
            Some(i) => QueryResponse::Packet(Some(st.packets[i].status)),
            None => QueryResponse::Packet(None),
        },
    }
}

} // verus!
