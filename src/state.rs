use crate::types::{ChannelRecord, PacketRecord};
use vstd::prelude::*;

verus! {

/// The local channel id of a channel record.
pub open spec fn chan_id(r: ChannelRecord) -> Seq<char> {
    r.channel.endpoint.channel_id@
}

/// `i` is the first position in `s` of a record for channel `id`.
pub open spec fn is_first_chan(s: Seq<ChannelRecord>, id: Seq<char>, i: int) -> bool {
    &&& 0 <= i < s.len()
    &&& chan_id(s[i]) == id
    &&& forall|j: int| 0 <= j < i ==> chan_id(#[trigger] s[j]) != id
}

/// Position of the record for channel `id`, or -1 when there is none.
pub open spec fn chan_index(s: Seq<ChannelRecord>, id: Seq<char>) -> int {
    if exists|i: int| is_first_chan(s, id, i) {
        choose|i: int| is_first_chan(s, id, i)
    } else {
        -1
    }
}

/// The record of channel `id`, if this contract has finalized it.
pub open spec fn lookup_channel(s: Seq<ChannelRecord>, id: Seq<char>) -> Option<ChannelRecord> {
    if chan_index(s, id) >= 0 {
        Some(s[chan_index(s, id)])
    } else {
        None
    }
}

/// `i` is the first position in `s` of the packet `seq` sent on channel `id`.
pub open spec fn is_first_packet(s: Seq<PacketRecord>, id: Seq<char>, seq: u64, i: int) -> bool {
    &&& 0 <= i < s.len()
    &&& s[i].channel_id@ == id
    &&& s[i].sequence == seq
    &&& forall|j: int|
        0 <= j < i ==> !(#[trigger] s[j].channel_id@ == id && s[j].sequence == seq)
}

/// Position of the outbound packet `seq` of channel `id`, or -1.
pub open spec fn packet_index(s: Seq<PacketRecord>, id: Seq<char>, seq: u64) -> int {
    if exists|i: int| is_first_packet(s, id, seq, i) {
        choose|i: int| is_first_packet(s, id, seq, i)
    } else {
        -1
    }
}

pub proof fn lemma_chan_index(s: Seq<ChannelRecord>, id: Seq<char>, i: int)
    requires
        is_first_chan(s, id, i),
    ensures
        chan_index(s, id) == i,
{
    let k = chan_index(s, id);
    assert(is_first_chan(s, id, k));
    if k < i {
        assert(chan_id(s[k]) != id);
    } else if k > i {
        assert(chan_id(s[i]) != id);
    }
}

pub proof fn lemma_no_chan(s: Seq<ChannelRecord>, id: Seq<char>)
    requires
        forall|j: int| 0 <= j < s.len() ==> chan_id(#[trigger] s[j]) != id,
    ensures
        chan_index(s, id) == -1,
{
}

/// Replacing the record at the first position of `id` by one with the same id
/// keeps that position.
pub proof fn lemma_chan_index_update(s: Seq<ChannelRecord>, id: Seq<char>, r: ChannelRecord)
    requires
        chan_index(s, id) >= 0,
        chan_id(r) == id,
    ensures
        chan_index(s.update(chan_index(s, id), r), id) == chan_index(s, id),
{
    let i = chan_index(s, id);
    let t = s.update(i, r);
    assert(is_first_chan(s, id, i));
    assert forall|j: int| 0 <= j < i implies chan_id(#[trigger] t[j]) != id by {
        assert(t[j] == s[j]);
    }
    lemma_chan_index(t, id, i);
}

pub proof fn lemma_packet_index(s: Seq<PacketRecord>, id: Seq<char>, seq: u64, i: int)
    requires
        is_first_packet(s, id, seq, i),
    ensures
        packet_index(s, id, seq) == i,
{
    let k = packet_index(s, id, seq);
    assert(is_first_packet(s, id, seq, k));
    if k < i {
        assert(!(s[k].channel_id@ == id && s[k].sequence == seq));
    } else if k > i {
        assert(!(s[i].channel_id@ == id && s[i].sequence == seq));
    }
}

/// Replacing the record at the first position of a packet by one with the
/// same key keeps that position.
pub proof fn lemma_packet_index_update(s: Seq<PacketRecord>, id: Seq<char>, seq: u64, r: PacketRecord)
    requires
        packet_index(s, id, seq) >= 0,
        r.channel_id@ == id,
        r.sequence == seq,
    ensures
        packet_index(s.update(packet_index(s, id, seq), r), id, seq) == packet_index(s, id, seq),
{
    let i = packet_index(s, id, seq);
    let t = s.update(i, r);
    assert(is_first_packet(s, id, seq, i));
    assert forall|j: int| 0 <= j < i implies !(#[trigger] t[j].channel_id@ == id && t[j].sequence == seq) by {
        assert(t[j] == s[j]);
    }
    lemma_packet_index(t, id, seq, i);
}

/// Position of the record of channel `id`, the first one, if any.
pub fn find_channel(s: &Vec<ChannelRecord>, id: &String) -> (r: Option<usize>)
    ensures
        match r {
            Some(i) => i as int == chan_index(s@, id@) && i < s@.len(),
            None => chan_index(s@, id@) == -1,
        },
{
    let mut i: usize = 0;
    while i < s.len()
        invariant
            i <= s@.len(),
            forall|j: int| 0 <= j < i ==> chan_id(#[trigger] s@[j]) != id@,
        decreases s@.len() - i,
    {
        if s[i].channel.endpoint.channel_id == *id {
            proof {
                assert(is_first_chan(s@, id@, i as int));
                lemma_chan_index(s@, id@, i as int);
            }
            return Some(i);
        }
        i = i + 1;
    }
    proof {
        lemma_no_chan(s@, id@);
    }
    None
}

/// Position of the outbound packet `seq` of channel `id`, the first one, if any.
pub fn find_packet(s: &Vec<PacketRecord>, id: &String, seq: u64) -> (r: Option<usize>)
    ensures
        match r {
            Some(i) => i as int == packet_index(s@, id@, seq) && i < s@.len(),
            None => packet_index(s@, id@, seq) == -1,
        },
{
    let mut i: usize = 0;
    while i < s.len()
        invariant
            i <= s@.len(),
            forall|j: int|
                0 <= j < i ==> !(#[trigger] s@[j].channel_id@ == id@ && s@[j].sequence == seq),
        decreases s@.len() - i,
    {
        if s[i].channel_id == *id && s[i].sequence == seq {
            proof {
                assert(is_first_packet(s@, id@, seq, i as int));
                lemma_packet_index(s@, id@, seq, i as int);
            }
            return Some(i);
        }
        i = i + 1;
    }
    None
}

} // verus!
