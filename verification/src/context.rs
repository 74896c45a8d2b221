//! The send-packet execution context: the narrow read/write capability
//! surface (channel-end lookup, send-sequence counters, commitment store,
//! event and log sinks) that the packet pipeline depends on. The pipeline
//! never touches storage except through this context.

use crate::channel::{ChannelEnd, ChannelState};
use crate::errors::PacketError;
use crate::events::Event;
use crate::timestamp::{Height, Timestamp};
use vstd::prelude::*;

verus! {

/// A stored packet commitment: the proof that the packet with this
/// sequence was sent on the channel that stores the entry.
#[derive(Debug)]
pub struct PacketCommitmentEntry {
    pub sequence: u64,
    pub commitment: Vec<u8>,
}

/// Everything the chain stores for one channel end: the end itself, the
/// next-send sequence counter, and the packet commitments written so far.
#[derive(Debug)]
pub struct ChannelRecord {
    pub port_id: String,
    pub channel_id: String,
    pub channel_end: ChannelEnd,
    pub next_sequence_send: u64,
    pub commitments: Vec<PacketCommitmentEntry>,
}

/// The execution context of the send-packet pipeline. The client fields
/// carry the counterparty's latest consensus claim (height and time), which
/// the validate phase compares packet timeouts against.
#[derive(Debug)]
pub struct SendPacketContext {
    pub channels: Vec<ChannelRecord>,
    pub client_latest_height: Height,
    pub client_latest_timestamp: Timestamp,
    pub events: Vec<Event>,
    pub logs: Vec<String>,
}

impl SendPacketContext {
    /// The (port, channel) key of the record at index `i`.
    pub open spec fn key_at(self, i: int) -> (Seq<char>, Seq<char>) {
        (self.channels@[i].port_id@, self.channels@[i].channel_id@)
    }

    /// Well-formed: no two records share a (port, channel) key, and each
    /// record's commitments are exactly the sequences 1 up to its counter,
    /// in order.
    pub open spec fn wf(self) -> bool {
        &&& forall|i: int, j: int|
            0 <= i < j < self.channels@.len() ==> #[trigger] self.key_at(i) != #[trigger] self.key_at(
                j,
            )
        &&& forall|i: int|
            0 <= i < self.channels@.len() ==> #[trigger] self.channels@[i].next_sequence_send as int
                == self.channels@[i].commitments@.len() + 1
        &&& forall|i: int, k: int|
            0 <= i < self.channels@.len() && 0 <= k < self.channels@[i].commitments@.len()
                ==> #[trigger] self.channels@[i].commitments@[k].sequence as int == k + 1
    }

    /// Some record carries the given key.
    pub open spec fn has_channel(self, port: Seq<char>, chan: Seq<char>) -> bool {
        exists|i: int| 0 <= i < self.channels@.len() && #[trigger] self.key_at(i) == (port, chan)
    }

    /// The index of the record with the given key.
    pub open spec fn channel_index(self, port: Seq<char>, chan: Seq<char>) -> int {
        choose|i: int| 0 <= i < self.channels@.len() && #[trigger] self.key_at(i) == (port, chan)
    }

    /// The record stored under the given key.
    pub open spec fn channel_rec(self, port: Seq<char>, chan: Seq<char>) -> ChannelRecord {
        self.channels@[self.channel_index(port, chan)]
    }

    /// The next-send sequence of the channel under the given key.
    pub open spec fn next_seq(self, port: Seq<char>, chan: Seq<char>) -> u64 {
        self.channel_rec(port, chan).next_sequence_send
    }

    /// In a well-formed context the key pins the index.
    pub proof fn lemma_key_pins_index(self, i: int, port: Seq<char>, chan: Seq<char>)
        requires
            self.wf(),
            0 <= i < self.channels@.len(),
            self.key_at(i) == (port, chan),
        ensures
            self.has_channel(port, chan),
            self.channel_index(port, chan) == i,
    {
        assert(self.has_channel(port, chan));
        let j = self.channel_index(port, chan);
        if i < j {
            assert(self.key_at(i) != self.key_at(j));
        } else if j < i {
            assert(self.key_at(j) != self.key_at(i));
        }
    }

    /// A fresh context with no channels, no events and no logs, trusting
    /// the given counterparty consensus claim.
    pub fn new(client_latest_height: Height, client_latest_timestamp: Timestamp) -> (r:
        SendPacketContext)
        ensures
            r.wf(),
            r.channels@.len() == 0,
            r.events@.len() == 0,
            r.logs@.len() == 0,
            r.client_latest_height == client_latest_height,
            r.client_latest_timestamp == client_latest_timestamp,
    {
        SendPacketContext {
            channels: Vec::new(),
            client_latest_height,
            client_latest_timestamp,
            events: Vec::new(),
            logs: Vec::new(),
        }
    }

    /// Looks up the index of the record with the given key.
    pub(crate) fn find_channel(&self, port_id: &String, channel_id: &String) -> (r: Option<usize>)
        ensures
            match r {
                Some(i) => i < self.channels@.len() && self.key_at(i as int) == (
                    port_id@,
                    channel_id@,
                ),
                None => !self.has_channel(port_id@, channel_id@),
            },
    {
        let mut i: usize = 0;
        while i < self.channels.len()
            invariant
                i <= self.channels@.len(),
                forall|k: int| 0 <= k < i ==> #[trigger] self.key_at(k) != (port_id@, channel_id@),
            decreases self.channels@.len() - i,
        {
            let rec = &self.channels[i];
            if rec.port_id == *port_id && rec.channel_id == *channel_id {
                return Some(i);
            }
            i = i + 1;
        }
        None
    }

    /// Registers a channel end under a fresh (port, channel) key. The
    /// send-sequence counter starts at 1. Fails, changing nothing, if the
    /// key is already taken.
    pub fn add_channel(&mut self, port_id: String, channel_id: String, channel_end: ChannelEnd) -> (r:
        bool)
        requires
            old(self).wf(),
        ensures
            final(self).wf(),
            r == !old(self).has_channel(port_id@, channel_id@),
            !r ==> *final(self) == *old(self),
            r ==> {
                &&& final(self).channels@.len() == old(self).channels@.len() + 1
                &&& final(self).channels@.drop_last() == old(self).channels@
                &&& final(self).channels@.last().port_id@ == port_id@
                &&& final(self).channels@.last().channel_id@ == channel_id@
                &&& final(self).channels@.last().channel_end == channel_end
                &&& final(self).channels@.last().next_sequence_send == 1
                &&& final(self).channels@.last().commitments@.len() == 0
                &&& final(self).events == old(self).events
                &&& final(self).logs == old(self).logs
                &&& final(self).client_latest_height == old(self).client_latest_height
                &&& final(self).client_latest_timestamp == old(self).client_latest_timestamp
            },
            r ==> final(self).has_channel(port_id@, channel_id@) && final(self).next_seq(
                port_id@,
                channel_id@,
            ) == 1,
    {
        if self.find_channel(&port_id, &channel_id).is_some() {
            return false;
        }
        let ghost pre = *self;
        let record = ChannelRecord {
            port_id,
            channel_id,
            channel_end,
            next_sequence_send: 1,
            commitments: Vec::new(),
        };
        self.channels.push(record);
        proof {
            let n = pre.channels@.len() as int;
            assert(self.channels@.drop_last() =~= pre.channels@);
            assert forall|i: int, j: int|
                0 <= i < j < self.channels@.len() implies #[trigger] self.key_at(i)
                != #[trigger] self.key_at(j) by {
                if j < n {
                    assert(pre.key_at(i) != pre.key_at(j));
                } else {
                    assert(pre.key_at(i) == self.key_at(i));
                    if self.key_at(i) == self.key_at(j) {
                        assert(pre.has_channel(self.channels@[j].port_id@, self.channels@[j].channel_id@));
                    }
                }
            }
            self.lemma_key_pins_index(n, self.channels@[n].port_id@, self.channels@[n].channel_id@);
        }
        true
    }

    /// Capability: resolves the channel end stored under a (port, channel).
    pub fn channel_end(&self, port_id: &String, channel_id: &String) -> (r: Result<
        &ChannelEnd,
        PacketError,
    >)
        requires
            self.wf(),
        ensures
            match r {
                Ok(c) => self.has_channel(port_id@, channel_id@) && *c == self.channel_rec(
                    port_id@,
                    channel_id@,
                ).channel_end,
                Err(e) => !self.has_channel(port_id@, channel_id@) && (e matches
                    PacketError::ChannelNotFound { port_id: p, channel_id: c } && p@ == port_id@
                    && c@ == channel_id@),
            },
    {
        match self.find_channel(port_id, channel_id) {
            Some(i) => {
                proof {
                    self.lemma_key_pins_index(i as int, port_id@, channel_id@);
                }
                Ok(&self.channels[i].channel_end)
            },
            None => Err(
                PacketError::ChannelNotFound {
                    port_id: port_id.clone(),
                    channel_id: channel_id.clone(),
                },
            ),
        }
    }

    /// Capability: reads the next-send sequence of a channel.
    pub fn get_next_sequence_send(&self, port_id: &String, channel_id: &String) -> (r: Result<
        u64,
        PacketError,
    >)
        requires
            self.wf(),
        ensures
            match r {
                Ok(s) => self.has_channel(port_id@, channel_id@) && s == self.next_seq(
                    port_id@,
                    channel_id@,
                ),
                Err(e) => !self.has_channel(port_id@, channel_id@) && (e matches
                    PacketError::ChannelNotFound { port_id: p, channel_id: c } && p@ == port_id@
                    && c@ == channel_id@),
            },
    {
        match self.find_channel(port_id, channel_id) {
            Some(i) => {
                proof {
                    self.lemma_key_pins_index(i as int, port_id@, channel_id@);
                }
                Ok(self.channels[i].next_sequence_send)
            },
            None => Err(
                PacketError::ChannelNotFound {
                    port_id: port_id.clone(),
                    channel_id: channel_id.clone(),
                },
            ),
        }
    }

    /// Reads the commitment stored for a sequence on a channel, if any.
    pub fn get_packet_commitment(&self, port_id: &String, channel_id: &String, sequence: u64) -> (r:
        Option<&Vec<u8>>)
        requires
            self.wf(),
        ensures
            match r {
                Some(c) => {
                    &&& self.has_channel(port_id@, channel_id@)
                    &&& 1 <= sequence
                    &&& sequence as int <= self.channel_rec(
                        port_id@,
                        channel_id@,
                    ).commitments@.len()
                    &&& c@ == self.channel_rec(port_id@, channel_id@).commitments@[sequence as int
                        - 1].commitment@
                },
                None => !self.has_channel(port_id@, channel_id@) || sequence < 1 || sequence as int
                    > self.channel_rec(port_id@, channel_id@).commitments@.len(),
            },
    {
        match self.find_channel(port_id, channel_id) {
            Some(i) => {
                proof {
                    self.lemma_key_pins_index(i as int, port_id@, channel_id@);
                }
                let rec = &self.channels[i];
                if sequence >= 1 && sequence <= rec.commitments.len() as u64 {
                    Some(&rec.commitments[(sequence - 1) as usize].commitment)
                } else {
                    None
                }
            },
            None => None,
        }
    }

    /// Capability: records a log line.
    pub fn log_message(&mut self, message: String)
        ensures
            final(self).logs@ == old(self).logs@.push(message),
            final(self).channels == old(self).channels,
            final(self).events == old(self).events,
            final(self).client_latest_height == old(self).client_latest_height,
            final(self).client_latest_timestamp == old(self).client_latest_timestamp,
    {
        self.logs.push(message);
    }

    /// Capability: emits a domain event.
    pub fn emit_ibc_event(&mut self, event: Event)
        ensures
            final(self).events@ == old(self).events@.push(event),
            final(self).channels == old(self).channels,
            final(self).logs == old(self).logs,
            final(self).client_latest_height == old(self).client_latest_height,
            final(self).client_latest_timestamp == old(self).client_latest_timestamp,
    {
        self.events.push(event);
    }
}

/// Two contexts with the same channel store agree on well-formedness.
pub proof fn lemma_wf_same_channels(a: SendPacketContext, b: SendPacketContext)
    requires
        a.wf(),
        b.channels@ == a.channels@,
    ensures
        b.wf(),
{
    assert forall|i: int, j: int|
        0 <= i < j < b.channels@.len() implies #[trigger] b.key_at(i) != #[trigger] b.key_at(
        j,
    ) by {
        assert(a.key_at(i) != a.key_at(j));
    }
    assert forall|i: int|
        0 <= i < b.channels@.len() implies #[trigger] b.channels@[i].next_sequence_send as int
        == b.channels@[i].commitments@.len() + 1 by {
        assert(a.channels@[i].next_sequence_send as int == a.channels@[i].commitments@.len() + 1);
    }
    assert forall|i: int, k: int|
        0 <= i < b.channels@.len() && 0 <= k < b.channels@[i].commitments@.len() implies
        #[trigger] b.channels@[i].commitments@[k].sequence as int == k + 1 by {
        assert(a.channels@[i].commitments@[k].sequence as int == k + 1);
    }
}

/// The channel under the key is open.
pub open spec fn channel_open(rec: ChannelRecord) -> bool {
    rec.channel_end.state == ChannelState::Open
}

} // verus!
