use crate::ack::{decode_ack, encode_error_ack, encode_success_ack, std_ack_error, std_ack_outcome, std_ack_success};
use crate::state::{chan_index, find_channel, find_packet, is_first_chan, lemma_chan_index_update, lemma_packet_index_update, lookup_channel, packet_index};
use crate::types::{
    endpoint_eq, endpoints_equal, BusinessOutcome, ChannelRecord, ChannelStatus, ContractError,
    ContractState, IbcBasicResponse, IbcPacket, IbcPacketAckMsg, IbcPacketReceiveMsg,
    IbcPacketTimeoutMsg, IbcReceiveResponse, PacketEffect, PacketRecord, PacketStatus,
};
use vstd::prelude::*;

verus! {

/// Validation of an inbound packet: `Ok(true)` when it is the next one on its
/// channel, `Ok(false)` when it was already handed over (a redelivery).
pub open spec fn receive_check(chans: Seq<ChannelRecord>, p: IbcPacket) -> Result<bool, ContractError> {
    match lookup_channel(chans, p.dest.channel_id@) {
        None => Err(ContractError::UnknownChannel),
        Some(r) => if r.status != ChannelStatus::Open {
            Err(ContractError::ChannelNotOpen)
        } else if r.channel.endpoint.port_id@ != p.dest.port_id@ || !endpoint_eq(r.channel.counterparty_endpoint, p.src) {
            Err(ContractError::EndpointMismatch)
        } else if p.sequence <= r.recv_cursor {
            Ok(false)
        } else if p.sequence == r.recv_cursor + 1 {
            Ok(true)
        } else {
            Err(ContractError::SequenceGap)
        },
    }
}

/// The acknowledgement that reports a business outcome.
pub open spec fn outcome_ack(o: BusinessOutcome) -> Seq<u8> {
    match o {
        BusinessOutcome::Applied { result } => std_ack_success(result@),
        BusinessOutcome::Rejected { reason } => std_ack_error(reason@),
    }
}

/// Channel records after an inbound packet: a fresh one advances the cursor.
pub open spec fn receive_channels(chans: Seq<ChannelRecord>, p: IbcPacket) -> Seq<ChannelRecord> {
    if receive_check(chans, p) == Ok::<bool, ContractError>(true) {
        let i = chan_index(chans, p.dest.channel_id@);
        chans.update(i, ChannelRecord { recv_cursor: p.sequence, ..chans[i] })
    } else {
        chans
    }
}

/// Validation of a terminal callback for an outbound packet: the position of
/// its record.
pub open spec fn terminal_check(chans: Seq<ChannelRecord>, pkts: Seq<PacketRecord>, p: IbcPacket) -> Result<int, ContractError> {
    match lookup_channel(chans, p.src.channel_id@) {
        None => Err(ContractError::UnknownChannel),
        Some(r) => if r.channel.endpoint.port_id@ != p.src.port_id@ || !endpoint_eq(r.channel.counterparty_endpoint, p.dest) {
            Err(ContractError::EndpointMismatch)
        } else if packet_index(pkts, p.src.channel_id@, p.sequence) < 0 {
            Err(ContractError::UnknownPacket)
        } else {
            Ok(packet_index(pkts, p.src.channel_id@, p.sequence))
        },
    }
}

/// Outcome of a terminal callback: `ack` holds the acknowledgement bytes for
/// `packet-ack` and is `None` for `packet-timeout`.
pub open spec fn terminal_result(chans: Seq<ChannelRecord>, pkts: Seq<PacketRecord>, p: IbcPacket, ack: Option<Seq<u8>>) -> Result<IbcBasicResponse, ContractError> {
    match terminal_check(chans, pkts, p) {
        Err(e) => Err(e),
        Ok(i) => if pkts[i].status != PacketStatus::InFlight {
            Ok(IbcBasicResponse { effect: PacketEffect::NoEffect })
        } else {
            match ack {
                None => Ok(IbcBasicResponse { effect: PacketEffect::Reverse }),
                Some(b) => match std_ack_outcome(b) {
                    None => Err(ContractError::InvalidAcknowledgement),
                    Some(ok) => Ok(IbcBasicResponse { effect: if ok { PacketEffect::Finalize } else { PacketEffect::Reverse } }),
                },
            }
        },
    }
}

/// The status a terminal callback leaves on a packet it resolves.
pub open spec fn resolved_status(ack: Option<Seq<u8>>) -> PacketStatus {
    if ack is Some {
        PacketStatus::Acknowledged
    } else {
        PacketStatus::TimedOut
    }
}

/// Packet records after a terminal callback: a packet in flight is resolved.
pub open spec fn terminal_packets(chans: Seq<ChannelRecord>, pkts: Seq<PacketRecord>, p: IbcPacket, ack: Option<Seq<u8>>) -> Seq<PacketRecord> {
    if terminal_result(chans, pkts, p, ack) is Ok && terminal_result(chans, pkts, p, ack)->Ok_0.effect != PacketEffect::NoEffect {
        let i = packet_index(pkts, p.src.channel_id@, p.sequence);
        pkts.update(i, PacketRecord { status: resolved_status(ack), ..pkts[i] })
    } else {
        pkts
    }
}

/// Whether an inbound packet is new (`Ok(true)`), a redelivery (`Ok(false)`),
/// or refused. The business logic is to run only on a new packet.
pub fn check_packet_receive(st: &ContractState, msg: &IbcPacketReceiveMsg) -> (r: Result<bool, ContractError>)
    ensures
        r == receive_check(st.channels@, msg.packet),
{
    match check_receive(&st.channels, &msg.packet) {
        Ok((_, fresh)) => Ok(fresh),
        Err(e) => Err(e),
    }
}

fn check_receive(chans: &Vec<ChannelRecord>, p: &IbcPacket) -> (r: Result<(usize, bool), ContractError>)
    ensures
        match r {
            Ok((i, fresh)) => receive_check(chans@, *p) == Ok::<bool, ContractError>(fresh)
                && i as int == chan_index(chans@, p.dest.channel_id@) && i < chans@.len(),
            Err(e) => receive_check(chans@, *p) == Err::<bool, ContractError>(e),
        },
{
    let i = match find_channel(chans, &p.dest.channel_id) {
        Some(i) => i,
        None => {
            return Err(ContractError::UnknownChannel);
        },
    };
    let rec = &chans[i];
    if rec.status != ChannelStatus::Open {
        return Err(ContractError::ChannelNotOpen);
    }
    if rec.channel.endpoint.port_id != p.dest.port_id || !endpoints_equal(&rec.channel.counterparty_endpoint, &p.src) {
        return Err(ContractError::EndpointMismatch);
    }
    if p.sequence <= rec.recv_cursor {
        Ok((i, false))
    } else if p.sequence - 1 == rec.recv_cursor {
        Ok((i, true))
    } else {
        Err(ContractError::SequenceGap)
    }
}

/// Takes an inbound packet with what the business logic made of its payload.
/// A new packet always succeeds, a rejection included: the rejection goes
/// into a failure acknowledgement. A redelivery changes nothing.
pub fn ibc_packet_receive(st: &mut ContractState, msg: &IbcPacketReceiveMsg, outcome: &BusinessOutcome) -> (r: Result<IbcReceiveResponse, ContractError>)
    ensures
        match receive_check(old(st).channels@, msg.packet) {
            Err(e) => r == Err::<IbcReceiveResponse, ContractError>(e),
            Ok(fresh) => {
                &&& r is Ok
                &&& r->Ok_0.applied == (fresh && outcome is Applied)
                &&& fresh ==> r->Ok_0.acknowledgement is Some && r->Ok_0.acknowledgement->0@ == outcome_ack(*outcome)
                &&& !fresh ==> r->Ok_0.acknowledgement is None
            },
        },
        final(st).channels@ == receive_channels(old(st).channels@, msg.packet),
        final(st).version == old(st).version,
        final(st).packets == old(st).packets,
{
    let (i, fresh) = match check_receive(&st.channels, &msg.packet) {
        Ok(x) => x,
        Err(e) => {
            return Err(e);
        },
    };
    if !fresh {
        return Ok(IbcReceiveResponse { acknowledgement: None, applied: false });
    }
    st.channels[i].recv_cursor = msg.packet.sequence;
    match outcome {
        BusinessOutcome::Applied { result } => Ok(IbcReceiveResponse { acknowledgement: Some(encode_success_ack(result)), applied: true }),
        BusinessOutcome::Rejected { reason } => Ok(IbcReceiveResponse { acknowledgement: Some(encode_error_ack(reason)), applied: false }),
    }
}

fn check_terminal(st: &ContractState, p: &IbcPacket) -> (r: Result<usize, ContractError>)
    ensures
        match r {
            Ok(i) => terminal_check(st.channels@, st.packets@, *p) == Ok::<int, ContractError>(i as int) && i < st.packets@.len(),
            Err(e) => terminal_check(st.channels@, st.packets@, *p) == Err::<int, ContractError>(e),
        },
{
    let c = match find_channel(&st.channels, &p.src.channel_id) {
        Some(c) => c,
        None => {
            return Err(ContractError::UnknownChannel);
        },
    };
    let rec = &st.channels[c];
    if rec.channel.endpoint.port_id != p.src.port_id || !endpoints_equal(&rec.channel.counterparty_endpoint, &p.dest) {
        return Err(ContractError::EndpointMismatch);
    }
    match find_packet(&st.packets, &p.src.channel_id, p.sequence) {
        Some(i) => Ok(i),
        None => Err(ContractError::UnknownPacket),
    }
}

/// Resolves an outbound packet by its acknowledgement: a success finalizes
/// its effect, a failure reverses it. A packet already resolved is left as
/// it is, with no effect.
pub fn ibc_packet_ack(st: &mut ContractState, msg: &IbcPacketAckMsg) -> (r: Result<IbcBasicResponse, ContractError>)
    ensures
        r == terminal_result(old(st).channels@, old(st).packets@, msg.original_packet, Some(msg.acknowledgement@)),
        final(st).packets@ == terminal_packets(old(st).channels@, old(st).packets@, msg.original_packet, Some(msg.acknowledgement@)),
        final(st).version == old(st).version,
        final(st).channels == old(st).channels,
{
    let i = match check_terminal(st, &msg.original_packet) {
        Ok(i) => i,
        Err(e) => {
            return Err(e);
        },
    };
    if st.packets[i].status != PacketStatus::InFlight {
        return Ok(IbcBasicResponse { effect: PacketEffect::NoEffect });
    }
    let effect = match decode_ack(&msg.acknowledgement) {
        None => {
            return Err(ContractError::InvalidAcknowledgement);
        },
        Some(true) => PacketEffect::Finalize,
        Some(false) => PacketEffect::Reverse,
    };
    st.packets[i].status = PacketStatus::Acknowledged;
    Ok(IbcBasicResponse { effect })
}

/// Resolves an outbound packet that was never acknowledged: its effect is
/// reversed. A packet already resolved is left as it is, with no effect.
pub fn ibc_packet_timeout(st: &mut ContractState, msg: &IbcPacketTimeoutMsg) -> (r: Result<IbcBasicResponse, ContractError>)
    ensures
        r == terminal_result(old(st).channels@, old(st).packets@, msg.packet, None),
        final(st).packets@ == terminal_packets(old(st).channels@, old(st).packets@, msg.packet, None),
        final(st).version == old(st).version,
        final(st).channels == old(st).channels,
{
    let i = match check_terminal(st, &msg.packet) {
        Ok(i) => i,
        Err(e) => {
            return Err(e);
        },
    };
    if st.packets[i].status != PacketStatus::InFlight {
        return Ok(IbcBasicResponse { effect: PacketEffect::NoEffect });
    }
    st.packets[i].status = PacketStatus::TimedOut;
    Ok(IbcBasicResponse { effect: PacketEffect::Reverse })
}

/// Of the terminal callbacks for one outbound packet (`packet-ack` with any
/// acknowledgement, or `packet-timeout`), only the first can have an effect:
/// once it has succeeded, any second one succeeds with no effect and leaves
/// the packet records as they are.
pub proof fn lemma_single_terminal_effect(
    chans: Seq<ChannelRecord>,
    pkts: Seq<PacketRecord>,
    p: IbcPacket,
    first: Option<Seq<u8>>,
    second: Option<Seq<u8>>,
)
    requires
        terminal_result(chans, pkts, p, first) is Ok,
    ensures
        terminal_result(chans, terminal_packets(chans, pkts, p, first), p, second)
            == Ok::<IbcBasicResponse, ContractError>(IbcBasicResponse { effect: PacketEffect::NoEffect }),
        terminal_packets(chans, terminal_packets(chans, pkts, p, first), p, second)
            == terminal_packets(chans, pkts, p, first),
{
    let id = p.src.channel_id@;
    let i = packet_index(pkts, id, p.sequence);
    let after = terminal_packets(chans, pkts, p, first);
    if after != pkts {
        let r = PacketRecord { status: resolved_status(first), ..pkts[i] };
        lemma_packet_index_update(pkts, id, p.sequence, r);
        assert(after[i].status != PacketStatus::InFlight);
    }
}

/// Redelivering an inbound packet that was just taken as new is accepted as a
/// redelivery: it is not handed to the business logic again and the channel
/// records stay as they are.
pub proof fn lemma_receive_redelivery(chans: Seq<ChannelRecord>, p: IbcPacket)
    requires
        receive_check(chans, p) == Ok::<bool, ContractError>(true),
    ensures
        receive_check(receive_channels(chans, p), p) == Ok::<bool, ContractError>(false),
        receive_channels(receive_channels(chans, p), p) == receive_channels(chans, p),
        lookup_channel(receive_channels(chans, p), p.dest.channel_id@)->0.recv_cursor == p.sequence,
{
    let id = p.dest.channel_id@;
    let i = chan_index(chans, id);
    assert(is_first_chan(chans, id, i));
    let r = ChannelRecord { recv_cursor: p.sequence, ..chans[i] };
    lemma_chan_index_update(chans, id, r);
}

} // verus!
