use crate::state::{chan_id, chan_index, find_channel, lemma_chan_index, lemma_chan_index_update, lookup_channel, is_first_chan};
use crate::types::{
    channel_eq, channels_equal, ChannelRecord, ChannelStatus, ContractError, ContractState,
    IbcBasicResponse, IbcChannel, IbcChannelCloseMsg, IbcChannelConnectMsg, IbcChannelOpenMsg,
    IbcOrder, PacketEffect,
};
use vstd::prelude::*;

verus! {

/// Whether a proposed channel is acceptable: ordered, on `version`, and, when
/// the counterparty has stated its version, on that one too.
pub open spec fn negotiation(version: Seq<char>, ch: IbcChannel, cp_version: Option<Seq<char>>) -> Result<(), ContractError> {
    if ch.order != IbcOrder::Ordered {
        Err(ContractError::InvalidOrder)
    } else if ch.version@ != version {
        Err(ContractError::InvalidVersion)
    } else if cp_version is Some && cp_version->0 != version {
        Err(ContractError::InvalidCounterpartyVersion)
    } else {
        Ok(())
    }
}

pub open spec fn open_parts(msg: IbcChannelOpenMsg) -> (IbcChannel, Option<Seq<char>>) {
    match msg {
        IbcChannelOpenMsg::OpenInit { channel } => (channel, None),
        IbcChannelOpenMsg::OpenTry { channel, counterparty_version } => (channel, Some(counterparty_version@)),
    }
}

pub open spec fn connect_parts(msg: IbcChannelConnectMsg) -> (IbcChannel, Option<Seq<char>>) {
    match msg {
        IbcChannelConnectMsg::OpenAck { channel, counterparty_version } => (channel, Some(counterparty_version@)),
        IbcChannelConnectMsg::OpenConfirm { channel } => (channel, None),
    }
}

pub open spec fn close_channel_of(msg: IbcChannelCloseMsg) -> IbcChannel {
    match msg {
        IbcChannelCloseMsg::CloseInit { channel } => channel,
        IbcChannelCloseMsg::CloseConfirm { channel } => channel,
    }
}

/// Outcome of `channel-open`: the proposal must be acceptable and the channel
/// not yet known here.
pub open spec fn open_result(chans: Seq<ChannelRecord>, version: Seq<char>, ch: IbcChannel, cp_version: Option<Seq<char>>) -> Result<(), ContractError> {
    if negotiation(version, ch, cp_version) is Err {
        negotiation(version, ch, cp_version)
    } else if lookup_channel(chans, ch.endpoint.channel_id@) is Some {
        Err(ContractError::ChannelExists)
    } else {
        Ok(())
    }
}

/// The record that `channel-connect` persists for a new channel.
pub open spec fn fresh_record(ch: IbcChannel) -> ChannelRecord {
    ChannelRecord { channel: ch, status: ChannelStatus::Open, recv_cursor: 0, send_cursor: 0 }
}

/// Outcome of `channel-connect`.
pub open spec fn connect_result(chans: Seq<ChannelRecord>, version: Seq<char>, ch: IbcChannel, cp_version: Option<Seq<char>>) -> Result<IbcBasicResponse, ContractError> {
    if negotiation(version, ch, cp_version) is Err {
        Err(negotiation(version, ch, cp_version)->Err_0)
    } else {
        match lookup_channel(chans, ch.endpoint.channel_id@) {
            None => Ok(IbcBasicResponse { effect: PacketEffect::NoEffect }),
            Some(r) => if r.status == ChannelStatus::Open && channel_eq(r.channel, ch) {
                Ok(IbcBasicResponse { effect: PacketEffect::NoEffect })
            } else {
                Err(ContractError::ChannelExists)
            },
        }
    }
}

/// Channel records after `channel-connect`: a new channel is added as Open.
pub open spec fn connect_channels(chans: Seq<ChannelRecord>, version: Seq<char>, ch: IbcChannel, cp_version: Option<Seq<char>>) -> Seq<ChannelRecord> {
    if negotiation(version, ch, cp_version) is Ok && lookup_channel(chans, ch.endpoint.channel_id@) is None {
        chans.push(fresh_record(ch))
    } else {
        chans
    }
}

/// Outcome of `channel-close` on channel `id`.
pub open spec fn close_result(chans: Seq<ChannelRecord>, id: Seq<char>) -> Result<IbcBasicResponse, ContractError> {
    if lookup_channel(chans, id) is Some {
        Ok(IbcBasicResponse { effect: PacketEffect::NoEffect })
    } else {
        Err(ContractError::UnknownChannel)
    }
}

/// Channel records after `channel-close` on channel `id`: that one is Closed.
pub open spec fn close_channels(chans: Seq<ChannelRecord>, id: Seq<char>) -> Seq<ChannelRecord> {
    if chan_index(chans, id) >= 0 {
        let i = chan_index(chans, id);
        chans.update(i, ChannelRecord { status: ChannelStatus::Closed, ..chans[i] })
    } else {
        chans
    }
}

fn check_negotiation(version: &String, ch: &IbcChannel, cp_version: Option<&String>) -> (r: Result<(), ContractError>)
    ensures
        r == negotiation(
            version@,
            *ch,
            match cp_version {
                Some(v) => Some(v@),
                None => None,
            },
        ),
{
    if ch.order != IbcOrder::Ordered {
        return Err(ContractError::InvalidOrder);
    }
    if ch.version != *version {
        return Err(ContractError::InvalidVersion);
    }
    match cp_version {
        Some(v) => if *v != *version {
            return Err(ContractError::InvalidCounterpartyVersion);
        },
        None => {},
    }
    Ok(())
}

/// Validates a channel proposal. Nothing is persisted, so a replay gives the
/// same answer and never a second record.
pub fn ibc_channel_open(st: &ContractState, msg: &IbcChannelOpenMsg) -> (r: Result<(), ContractError>)
    ensures
        r == open_result(st.channels@, st.version@, open_parts(*msg).0, open_parts(*msg).1),
{
    let (ch, cp) = match msg {
        IbcChannelOpenMsg::OpenInit { channel } => (channel, None),
        IbcChannelOpenMsg::OpenTry { channel, counterparty_version } => (channel, Some(counterparty_version)),
    };
    let n = check_negotiation(&st.version, ch, cp);
    if n.is_err() {
        return n;
    }
    match find_channel(&st.channels, &ch.endpoint.channel_id) {
        Some(_) => Err(ContractError::ChannelExists),
        None => Ok(()),
    }
}

/// Finalizes the handshake and persists the channel as Open. A replay with
/// the same channel is a success that changes nothing.
pub fn ibc_channel_connect(st: &mut ContractState, msg: IbcChannelConnectMsg) -> (r: Result<IbcBasicResponse, ContractError>)
    ensures
        r == connect_result(old(st).channels@, old(st).version@, connect_parts(msg).0, connect_parts(msg).1),
        final(st).channels@ == connect_channels(old(st).channels@, old(st).version@, connect_parts(msg).0, connect_parts(msg).1),
        final(st).version == old(st).version,
        final(st).packets == old(st).packets,
{
    let ghost cp_spec = connect_parts(msg).1;
    let (ch, cp) = match msg {
        IbcChannelConnectMsg::OpenAck { channel, counterparty_version } => (channel, Some(counterparty_version)),
        IbcChannelConnectMsg::OpenConfirm { channel } => (channel, None),
    };
    let n = check_negotiation(&st.version, &ch, cp.as_ref());
    match n {
        Err(e) => {
            return Err(e);
        },
        Ok(_) => {},
    }
    match find_channel(&st.channels, &ch.endpoint.channel_id) {
        Some(i) => {
            if st.channels[i].status == ChannelStatus::Open && channels_equal(&st.channels[i].channel, &ch) {
                Ok(IbcBasicResponse { effect: PacketEffect::NoEffect })
            } else {
                Err(ContractError::ChannelExists)
            }
        },
        None => {
            st.channels.push(ChannelRecord { channel: ch, status: ChannelStatus::Open, recv_cursor: 0, send_cursor: 0 });
            Ok(IbcBasicResponse { effect: PacketEffect::NoEffect })
        },
    }
}

/// Marks the channel Closed, whoever started the close; closing a Closed
/// channel is a success.
pub fn ibc_channel_close(st: &mut ContractState, msg: &IbcChannelCloseMsg) -> (r: Result<IbcBasicResponse, ContractError>)
    ensures
        r == close_result(old(st).channels@, close_channel_of(*msg).endpoint.channel_id@),
        final(st).channels@ == close_channels(old(st).channels@, close_channel_of(*msg).endpoint.channel_id@),
        final(st).version == old(st).version,
        final(st).packets == old(st).packets,
{
    let ch = match msg {
        IbcChannelCloseMsg::CloseInit { channel } => channel,
        IbcChannelCloseMsg::CloseConfirm { channel } => channel,
    };
    match find_channel(&st.channels, &ch.endpoint.channel_id) {
        Some(i) => {
            st.channels[i].status = ChannelStatus::Closed;
            Ok(IbcBasicResponse { effect: PacketEffect::NoEffect })
        },
        None => Err(ContractError::UnknownChannel),
    }
}

/// Closing a channel twice: the second close succeeds too, leaves the records
/// as the first left them, and the channel is Closed after each.
pub proof fn lemma_close_idempotent(chans: Seq<ChannelRecord>, id: Seq<char>)
    requires
        close_result(chans, id) is Ok,
    ensures
        close_result(close_channels(chans, id), id) is Ok,
        close_channels(close_channels(chans, id), id) == close_channels(chans, id),
        lookup_channel(close_channels(chans, id), id)->0.status == ChannelStatus::Closed,
{
    let i = chan_index(chans, id);
    assert(is_first_chan(chans, id, i));
    let r = ChannelRecord { status: ChannelStatus::Closed, ..chans[i] };
    lemma_chan_index_update(chans, id, r);
    let once = close_channels(chans, id);
    assert(once[i] == r);
    assert(once.update(i, ChannelRecord { status: ChannelStatus::Closed, ..once[i] }) =~= once);
}

/// Replaying a `channel-connect` that succeeded, with the same inputs,
/// succeeds again and changes no record.
pub proof fn lemma_connect_replay(chans: Seq<ChannelRecord>, version: Seq<char>, ch: IbcChannel, cp_version: Option<Seq<char>>)
    requires
        connect_result(chans, version, ch, cp_version) is Ok,
    ensures
        connect_result(connect_channels(chans, version, ch, cp_version), version, ch, cp_version) is Ok,
        connect_channels(connect_channels(chans, version, ch, cp_version), version, ch, cp_version)
            == connect_channels(chans, version, ch, cp_version),
{
    let id = ch.endpoint.channel_id@;
    if lookup_channel(chans, id) is None {
        let t = chans.push(fresh_record(ch));
        assert(chan_index(chans, id) == -1);
        assert forall|j: int| 0 <= j < chans.len() implies chan_id(#[trigger] t[j]) != id by {
            assert(t[j] == chans[j]);
            if chan_id(chans[j]) == id {
                assert(exists|k: int| 0 <= k < chans.len() && chan_id(chans[k]) == id);
                lemma_first_exists(chans, id, j);
            }
        }
        assert(is_first_chan(t, id, chans.len() as int));
        lemma_chan_index(t, id, chans.len() as int);
    }
}

proof fn lemma_first_exists(s: Seq<ChannelRecord>, id: Seq<char>, j: int)
    requires
        0 <= j < s.len(),
        chan_id(s[j]) == id,
    ensures
        chan_index(s, id) >= 0,
    decreases j,
{
    if exists|k: int| 0 <= k < j && chan_id(s[k]) == id {
        let k = choose|k: int| 0 <= k < j && chan_id(s[k]) == id;
        lemma_first_exists(s, id, k);
    } else {
        assert(is_first_chan(s, id, j));
    }
}

} // verus!
