use contracts_cosmwasm::contract::{ExecuteMsg, QueryMsg, QueryResponse};
use contracts_cosmwasm::packets::check_packet_receive;
use contracts_cosmwasm::types::{
    BusinessOutcome, ChannelStatus, ContractState, IbcChannel, IbcChannelCloseMsg,
    IbcChannelConnectMsg, IbcChannelOpenMsg, IbcEndpoint, IbcOrder, IbcPacket, IbcPacketAckMsg,
    IbcPacketReceiveMsg, IbcPacketTimeoutMsg, InstantiateMsg, PacketEffect, PacketStatus,
};
use contracts_cosmwasm::{
    execute, ibc_channel_close, ibc_channel_connect, ibc_channel_open, ibc_packet_ack,
    ibc_packet_receive, ibc_packet_timeout, instantiate, query, ContractError,
};

const VERSION: &str = "ledger-1";

fn endpoint(port: &str, id: &str) -> IbcEndpoint {
    IbcEndpoint { port_id: port.to_string(), channel_id: id.to_string() }
}

fn channel(id: &str, order: IbcOrder, version: &str) -> IbcChannel {
    IbcChannel {
        endpoint: endpoint("wasm.ledger", id),
        counterparty_endpoint: endpoint("transfer", "channel-99"),
        order,
        version: version.to_string(),
        connection_id: "connection-0".to_string(),
    }
}

fn fresh() -> ContractState {
    instantiate(InstantiateMsg { ibc_version: VERSION.to_string() })
}

fn connected(id: &str) -> ContractState {
    let mut st = fresh();
    let msg = IbcChannelConnectMsg::OpenConfirm { channel: channel(id, IbcOrder::Ordered, VERSION) };
    ibc_channel_connect(&mut st, msg).unwrap();
    st
}

fn inbound(id: &str, sequence: u64) -> IbcPacketReceiveMsg {
    IbcPacketReceiveMsg {
        packet: IbcPacket {
            src: endpoint("transfer", "channel-99"),
            dest: endpoint("wasm.ledger", id),
            sequence,
            data: vec![7, 7],
        },
    }
}

fn outbound(id: &str, sequence: u64) -> IbcPacket {
    IbcPacket {
        src: endpoint("wasm.ledger", id),
        dest: endpoint("transfer", "channel-99"),
        sequence,
        data: vec![1],
    }
}

fn applied(bytes: &[u8]) -> BusinessOutcome {
    BusinessOutcome::Applied { result: bytes.to_vec() }
}

fn channel_status(st: &ContractState, id: &str) -> QueryResponse {
    query(st, &QueryMsg::ChannelStatus { channel_id: id.to_string() })
}

fn packet_status(st: &ContractState, id: &str, sequence: u64) -> QueryResponse {
    query(st, &QueryMsg::PacketStatus { channel_id: id.to_string(), sequence })
}

fn send(st: &mut ContractState, id: &str) -> Result<u64, ContractError> {
    execute(st, ExecuteMsg::SendPacket { channel_id: id.to_string(), data: vec![1] }).map(|r| r.sequence)
}

#[test]
fn instantiate_starts_empty() {
    let st = fresh();
    assert_eq!(st.version, VERSION);
    assert!(st.channels.is_empty());
    assert!(st.packets.is_empty());
}

#[test]
fn open_accepts_matching_proposal() {
    let st = fresh();
    let init = IbcChannelOpenMsg::OpenInit { channel: channel("channel-0", IbcOrder::Ordered, VERSION) };
    assert_eq!(ibc_channel_open(&st, &init), Ok(()));
    assert_eq!(ibc_channel_open(&st, &init), Ok(()));
    let try_msg = IbcChannelOpenMsg::OpenTry {
        channel: channel("channel-0", IbcOrder::Ordered, VERSION),
        counterparty_version: VERSION.to_string(),
    };
    assert_eq!(ibc_channel_open(&st, &try_msg), Ok(()));
    assert!(st.channels.is_empty());
}

#[test]
fn open_with_mismatched_version_is_refused() {
    let st = fresh();
    let msg = IbcChannelOpenMsg::OpenInit { channel: channel("channel-0", IbcOrder::Ordered, "other-1") };
    assert_eq!(ibc_channel_open(&st, &msg), Err(ContractError::InvalidVersion));
    assert_eq!(channel_status(&st, "channel-0"), QueryResponse::Channel(None));
    assert!(st.channels.is_empty());
}

#[test]
fn open_refuses_counterparty_version_and_order() {
    let st = fresh();
    let msg = IbcChannelOpenMsg::OpenTry {
        channel: channel("channel-0", IbcOrder::Ordered, VERSION),
        counterparty_version: "other-1".to_string(),
    };
    assert_eq!(ibc_channel_open(&st, &msg), Err(ContractError::InvalidCounterpartyVersion));
    let msg = IbcChannelOpenMsg::OpenInit { channel: channel("channel-0", IbcOrder::Unordered, VERSION) };
    assert_eq!(ibc_channel_open(&st, &msg), Err(ContractError::InvalidOrder));
}

#[test]
fn open_refuses_known_channel() {
    let st = connected("channel-0");
    let msg = IbcChannelOpenMsg::OpenInit { channel: channel("channel-0", IbcOrder::Ordered, VERSION) };
    assert_eq!(ibc_channel_open(&st, &msg), Err(ContractError::ChannelExists));
}

#[test]
fn connect_persists_open_channel() {
    let st = connected("channel-0");
    assert_eq!(st.channels.len(), 1);
    assert_eq!(channel_status(&st, "channel-0"), QueryResponse::Channel(Some(ChannelStatus::Open)));
}

#[test]
fn connect_replay_changes_nothing() {
    let mut st = connected("channel-0");
    let msg = IbcChannelConnectMsg::OpenAck {
        channel: channel("channel-0", IbcOrder::Ordered, VERSION),
        counterparty_version: VERSION.to_string(),
    };
    let r = ibc_channel_connect(&mut st, msg).unwrap();
    assert_eq!(r.effect, PacketEffect::NoEffect);
    assert_eq!(st.channels.len(), 1);
    assert_eq!(channel_status(&st, "channel-0"), QueryResponse::Channel(Some(ChannelStatus::Open)));
}

#[test]
fn connect_with_other_channel_under_same_id_is_refused() {
    let mut st = connected("channel-0");
    let mut other = channel("channel-0", IbcOrder::Ordered, VERSION);
    other.connection_id = "connection-5".to_string();
    let r = ibc_channel_connect(&mut st, IbcChannelConnectMsg::OpenConfirm { channel: other });
    assert_eq!(r.unwrap_err(), ContractError::ChannelExists);
    assert_eq!(st.channels.len(), 1);
}

#[test]
fn connect_refuses_counterparty_version() {
    let mut st = fresh();
    let msg = IbcChannelConnectMsg::OpenAck {
        channel: channel("channel-0", IbcOrder::Ordered, VERSION),
        counterparty_version: "other-1".to_string(),
    };
    assert_eq!(ibc_channel_connect(&mut st, msg).unwrap_err(), ContractError::InvalidCounterpartyVersion);
    assert!(st.channels.is_empty());
}

#[test]
fn close_twice_is_closed_both_times() {
    let mut st = connected("channel-0");
    let init = IbcChannelCloseMsg::CloseInit { channel: channel("channel-0", IbcOrder::Ordered, VERSION) };
    let confirm = IbcChannelCloseMsg::CloseConfirm { channel: channel("channel-0", IbcOrder::Ordered, VERSION) };
    assert!(ibc_channel_close(&mut st, &init).is_ok());
    assert_eq!(channel_status(&st, "channel-0"), QueryResponse::Channel(Some(ChannelStatus::Closed)));
    assert!(ibc_channel_close(&mut st, &confirm).is_ok());
    assert_eq!(channel_status(&st, "channel-0"), QueryResponse::Channel(Some(ChannelStatus::Closed)));
    assert_eq!(st.channels.len(), 1);
}

#[test]
fn close_unknown_channel_is_refused() {
    let mut st = fresh();
    let msg = IbcChannelCloseMsg::CloseInit { channel: channel("channel-3", IbcOrder::Ordered, VERSION) };
    assert_eq!(ibc_channel_close(&mut st, &msg).unwrap_err(), ContractError::UnknownChannel);
}

#[test]
fn receive_advances_cursor_and_ignores_redelivery() {
    let mut st = connected("channel-0");
    st.channels[0].recv_cursor = 4;
    assert_eq!(check_packet_receive(&st, &inbound("channel-0", 5)), Ok(true));
    let r = ibc_packet_receive(&mut st, &inbound("channel-0", 5), &applied(&[1])).unwrap();
    assert!(r.applied);
    assert_eq!(r.acknowledgement, Some(br#"{"result":"AQ=="}"#.to_vec()));
    assert_eq!(st.channels[0].recv_cursor, 5);
    assert_eq!(check_packet_receive(&st, &inbound("channel-0", 5)), Ok(false));
    let again = ibc_packet_receive(&mut st, &inbound("channel-0", 5), &applied(&[1])).unwrap();
    assert!(!again.applied);
    assert_eq!(again.acknowledgement, None);
    assert_eq!(st.channels[0].recv_cursor, 5);
}

#[test]
fn receive_rejection_becomes_failure_acknowledgement() {
    let mut st = connected("channel-0");
    let outcome = BusinessOutcome::Rejected { reason: "kaputt".to_string() };
    let r = ibc_packet_receive(&mut st, &inbound("channel-0", 1), &outcome).unwrap();
    assert!(!r.applied);
    assert_eq!(r.acknowledgement, Some(br#"{"error":"kaputt"}"#.to_vec()));
    assert_eq!(st.channels[0].recv_cursor, 1);
}

#[test]
fn receive_refuses_gap_and_mismatch() {
    let mut st = connected("channel-0");
    let r = ibc_packet_receive(&mut st, &inbound("channel-0", 2), &applied(&[]));
    assert_eq!(r.unwrap_err(), ContractError::SequenceGap);
    let mut wrong = inbound("channel-0", 1);
    wrong.packet.src = endpoint("transfer", "channel-42");
    assert_eq!(ibc_packet_receive(&mut st, &wrong, &applied(&[])).unwrap_err(), ContractError::EndpointMismatch);
    let r = ibc_packet_receive(&mut st, &inbound("channel-8", 1), &applied(&[]));
    assert_eq!(r.unwrap_err(), ContractError::UnknownChannel);
    assert_eq!(st.channels[0].recv_cursor, 0);
}

#[test]
fn receive_on_closed_channel_is_refused() {
    let mut st = connected("channel-0");
    let msg = IbcChannelCloseMsg::CloseInit { channel: channel("channel-0", IbcOrder::Ordered, VERSION) };
    ibc_channel_close(&mut st, &msg).unwrap();
    let r = ibc_packet_receive(&mut st, &inbound("channel-0", 1), &applied(&[]));
    assert_eq!(r.unwrap_err(), ContractError::ChannelNotOpen);
}

#[test]
fn send_assigns_increasing_sequences() {
    let mut st = connected("channel-0");
    assert_eq!(send(&mut st, "channel-0"), Ok(1));
    assert_eq!(send(&mut st, "channel-0"), Ok(2));
    assert_eq!(packet_status(&st, "channel-0", 2), QueryResponse::Packet(Some(PacketStatus::InFlight)));
    assert_eq!(packet_status(&st, "channel-0", 3), QueryResponse::Packet(None));
    assert_eq!(send(&mut st, "channel-7"), Err(ContractError::UnknownChannel));
    let r = execute(&mut st, ExecuteMsg::SendPacket { channel_id: "channel-0".to_string(), data: vec![4, 2] }).unwrap();
    assert_eq!((r.channel_id.as_str(), r.sequence, r.data), ("channel-0", 3, vec![4, 2]));
    assert_eq!(st.channels[0].send_cursor, 3);
}

#[test]
fn send_refuses_closed_channel_and_overflow() {
    let mut st = connected("channel-0");
    st.channels[0].send_cursor = u64::MAX;
    assert_eq!(send(&mut st, "channel-0"), Err(ContractError::SequenceOverflow));
    let msg = IbcChannelCloseMsg::CloseInit { channel: channel("channel-0", IbcOrder::Ordered, VERSION) };
    ibc_channel_close(&mut st, &msg).unwrap();
    assert_eq!(send(&mut st, "channel-0"), Err(ContractError::ChannelNotOpen));
    assert!(st.packets.is_empty());
}

#[test]
fn ack_success_finalizes() {
    let mut st = connected("channel-0");
    send(&mut st, "channel-0").unwrap();
    let msg = IbcPacketAckMsg { acknowledgement: br#"{"result":"AQ=="}"#.to_vec(), original_packet: outbound("channel-0", 1) };
    assert_eq!(ibc_packet_ack(&mut st, &msg).unwrap().effect, PacketEffect::Finalize);
    assert_eq!(packet_status(&st, "channel-0", 1), QueryResponse::Packet(Some(PacketStatus::Acknowledged)));
}

#[test]
fn ack_failure_reverses_once() {
    let mut st = connected("channel-0");
    send(&mut st, "channel-0").unwrap();
    let msg = IbcPacketAckMsg { acknowledgement: br#"{"error":"no funds"}"#.to_vec(), original_packet: outbound("channel-0", 1) };
    assert_eq!(ibc_packet_ack(&mut st, &msg).unwrap().effect, PacketEffect::Reverse);
    assert_eq!(ibc_packet_ack(&mut st, &msg).unwrap().effect, PacketEffect::NoEffect);
}

#[test]
fn timeout_after_ack_has_no_effect() {
    let mut st = connected("channel-0");
    send(&mut st, "channel-0").unwrap();
    let ack = IbcPacketAckMsg { acknowledgement: br#"{"result":"AQ=="}"#.to_vec(), original_packet: outbound("channel-0", 1) };
    assert_eq!(ibc_packet_ack(&mut st, &ack).unwrap().effect, PacketEffect::Finalize);
    let timeout = IbcPacketTimeoutMsg { packet: outbound("channel-0", 1) };
    assert_eq!(ibc_packet_timeout(&mut st, &timeout).unwrap().effect, PacketEffect::NoEffect);
    assert_eq!(packet_status(&st, "channel-0", 1), QueryResponse::Packet(Some(PacketStatus::Acknowledged)));
}

#[test]
fn ack_after_timeout_has_no_effect() {
    let mut st = connected("channel-0");
    send(&mut st, "channel-0").unwrap();
    let timeout = IbcPacketTimeoutMsg { packet: outbound("channel-0", 1) };
    assert_eq!(ibc_packet_timeout(&mut st, &timeout).unwrap().effect, PacketEffect::Reverse);
    assert_eq!(ibc_packet_timeout(&mut st, &timeout).unwrap().effect, PacketEffect::NoEffect);
    let ack = IbcPacketAckMsg { acknowledgement: br#"{"result":"AQ=="}"#.to_vec(), original_packet: outbound("channel-0", 1) };
    assert_eq!(ibc_packet_ack(&mut st, &ack).unwrap().effect, PacketEffect::NoEffect);
    assert_eq!(packet_status(&st, "channel-0", 1), QueryResponse::Packet(Some(PacketStatus::TimedOut)));
}

#[test]
fn terminal_callbacks_refuse_bad_input() {
    let mut st = connected("channel-0");
    send(&mut st, "channel-0").unwrap();
    let bad = IbcPacketAckMsg { acknowledgement: b"not json".to_vec(), original_packet: outbound("channel-0", 1) };
    assert_eq!(ibc_packet_ack(&mut st, &bad).unwrap_err(), ContractError::InvalidAcknowledgement);
    assert_eq!(packet_status(&st, "channel-0", 1), QueryResponse::Packet(Some(PacketStatus::InFlight)));
    let unknown = IbcPacketTimeoutMsg { packet: outbound("channel-0", 9) };
    assert_eq!(ibc_packet_timeout(&mut st, &unknown).unwrap_err(), ContractError::UnknownPacket);
    let mut wrong = outbound("channel-0", 1);
    wrong.dest = endpoint("transfer", "channel-42");
    let msg = IbcPacketTimeoutMsg { packet: wrong };
    assert_eq!(ibc_packet_timeout(&mut st, &msg).unwrap_err(), ContractError::EndpointMismatch);
    let msg = IbcPacketTimeoutMsg { packet: outbound("channel-5", 1) };
    assert_eq!(ibc_packet_timeout(&mut st, &msg).unwrap_err(), ContractError::UnknownChannel);
}
