//! Audio packets: single Opus frames and bundles of up to four channels
//! sharing one sequence number and timestamp.

use vstd::prelude::*;

use crate::codes::PacketType;
use crate::flags::Flags;
use crate::header::{header_bytes, Header, ProtocolError};
use crate::wire::{
    be16, be32, copy_range, get_be16, get_be32, lemma_be16, lemma_be32, push_be16, push_be32,
    push_bytes, read_be16, read_be32,
};

verus! {

/// Audio packet: header(4) + sequence(4) + timestamp(4) + opus_len(2) +
/// opus_data(N).
#[derive(Debug, Clone)]
pub struct AudioPacket {
    pub flags: Flags,
    pub sequence: u32,
    pub timestamp: u32,
    pub opus_data: Vec<u8>,
}

/// Mathematical view of an `AudioPacket`.
#[verifier::ext_equal]
pub struct AudioPacketView {
    pub flags: Flags,
    pub sequence: u32,
    pub timestamp: u32,
    pub opus_data: Seq<u8>,
}

impl View for AudioPacket {
    type V = AudioPacketView;

    open spec fn view(&self) -> AudioPacketView {
        AudioPacketView {
            flags: self.flags,
            sequence: self.sequence,
            timestamp: self.timestamp,
            opus_data: self.opus_data@,
        }
    }
}

/// The packet types that carry an audio packet.
pub open spec fn is_audio_type(t: PacketType) -> bool {
    t == PacketType::Audio || t == PacketType::AudioRx2 || t == PacketType::AudioYaesu || t
        == PacketType::AudioBinR
}

impl AudioPacketView {
    /// Wire bytes of the packet sent as type `t`. The length field holds the
    /// payload length modulo 2^16; the whole payload follows it.
    pub open spec fn spec_bytes(self, t: PacketType) -> Seq<u8> {
        header_bytes(t, self.flags) + be32(self.sequence) + be32(self.timestamp) + be16(
            (self.opus_data.len() % 0x1_0000) as u16,
        ) + self.opus_data
    }

    /// What decoding `s` as an audio packet gives.
    pub open spec fn spec_decode(s: Seq<u8>) -> Result<AudioPacketView, ProtocolError> {
        match Header::spec_decode(s) {
            Err(e) => Err(e),
            Ok(h) => if !is_audio_type(h.packet_type) {
                Err(ProtocolError::UnexpectedPacketType(h.packet_type))
            } else if s.len() < 14 {
                Err(ProtocolError::TooShort { len: s.len() as usize, min: 14 })
            } else if s.len() < 14 + read_be16(s, 12) {
                Err(
                    ProtocolError::Truncated {
                        len: s.len() as usize,
                        needed: (14 + read_be16(s, 12)) as usize,
                    },
                )
            } else {
                Ok(
                    AudioPacketView {
                        flags: h.flags,
                        sequence: read_be32(s, 4),
                        timestamp: read_be32(s, 8),
                        opus_data: s.subrange(14, 14 + read_be16(s, 12)),
                    },
                )
            },
        }
    }

    /// Decoding the bytes of an audio packet whose payload fits the 16-bit
    /// length field gives the packet back, whatever follows it in the buffer.
    pub proof fn lemma_roundtrip(self, t: PacketType, rest: Seq<u8>)
        requires
            is_audio_type(t),
            self.opus_data.len() <= 0xFFFF,
        ensures
            AudioPacketView::spec_decode(self.spec_bytes(t) + rest) == Ok::<
                AudioPacketView,
                ProtocolError,
            >(self),
    {
        let s = self.spec_bytes(t) + rest;
        let h = Header { packet_type: t, flags: self.flags };
        h.lemma_roundtrip(s.subrange(4, s.len() as int));
        assert(s =~= h.spec_bytes() + s.subrange(4, s.len() as int));
        let n = self.opus_data.len() as u16;
        lemma_be32(self.sequence, s, 4);
        lemma_be32(self.timestamp, s, 8);
        lemma_be16(n, s, 12);
        assert(s.subrange(4, 8) =~= be32(self.sequence));
        assert(s.subrange(8, 12) =~= be32(self.timestamp));
        assert(s.subrange(12, 14) =~= be16(n));
        assert(s.subrange(14, 14 + n) =~= self.opus_data);
        let d = AudioPacketView::spec_decode(s);
        assert(d matches Ok(v) && v =~= self);
    }
}

impl AudioPacket {
    /// Size of the fixed part.
    pub const HEADER_SIZE: usize = 14;

    pub fn serialize(&self, buf: &mut Vec<u8>)
        ensures
            final(buf)@ == old(buf)@ + self@.spec_bytes(PacketType::Audio),
    {
        self.serialize_as_type(buf, PacketType::Audio);
    }

    /// Appends the packet, tagged as `ptype`, to `buf`.
    pub fn serialize_as_type(&self, buf: &mut Vec<u8>, ptype: PacketType)
        ensures
            final(buf)@ == old(buf)@ + self@.spec_bytes(ptype),
    {
        Header::new(ptype, self.flags).append_to(buf);
        push_be32(buf, self.sequence);
        push_be32(buf, self.timestamp);
        push_be16(buf, (self.opus_data.len() % 0x1_0000) as u16);
        push_bytes(buf, self.opus_data.as_slice());
        assert(buf@ =~= old(buf)@ + self@.spec_bytes(ptype));
    }

    pub fn deserialize(buf: &[u8]) -> (r: Result<AudioPacket, ProtocolError>)
        ensures
            result_view_audio(r) == AudioPacketView::spec_decode(buf@),
    {
        let header = Header::deserialize(buf)?;
        if !matches!(
            header.packet_type,
            PacketType::Audio | PacketType::AudioRx2 | PacketType::AudioYaesu
                | PacketType::AudioBinR
        ) {
            return Err(ProtocolError::UnexpectedPacketType(header.packet_type));
        }
        if buf.len() < 14 {
            return Err(ProtocolError::TooShort { len: buf.len(), min: 14 });
        }
        let sequence = get_be32(buf, 4);
        let timestamp = get_be32(buf, 8);
        let opus_len = get_be16(buf, 12) as usize;
        if buf.len() - 14 < opus_len {
            return Err(ProtocolError::Truncated { len: buf.len(), needed: 14 + opus_len });
        }
        let opus_data = copy_range(buf, 14, 14 + opus_len);
        let r = AudioPacket { flags: header.flags, sequence, timestamp, opus_data };
        assert(r@ =~= AudioPacketView::spec_decode(buf@).unwrap());
        Ok(r)
    }
}

/// A decoded audio packet seen through its view.
pub open spec fn result_view_audio(r: Result<AudioPacket, ProtocolError>) -> Result<
    AudioPacketView,
    ProtocolError,
> {
    match r {
        Ok(p) => Ok(p@),
        Err(e) => Err(e),
    }
}

/// Multi-channel audio packet: header(4) + sequence(4) + timestamp(4) +
/// channel_count(1), then per channel: channel_id(1) + opus_len(2) +
/// opus_data(N). Channel ids: 0 = RX1 (RX1-L when binaural), 1 = RX1-R,
/// 2 = RX2, 3 = Yaesu.
#[derive(Debug, Clone)]
pub struct MultiChannelAudioPacket {
    pub sequence: u32,
    pub timestamp: u32,
    /// (channel_id, opus_data)
    pub channels: Vec<(u8, Vec<u8>)>,
}

/// Mathematical view of a `MultiChannelAudioPacket`.
#[verifier::ext_equal]
pub struct MultiChannelAudioView {
    pub sequence: u32,
    pub timestamp: u32,
    pub channels: Seq<(u8, Seq<u8>)>,
}

impl View for MultiChannelAudioPacket {
    type V = MultiChannelAudioView;

    open spec fn view(&self) -> MultiChannelAudioView {
        MultiChannelAudioView {
            sequence: self.sequence,
            timestamp: self.timestamp,
            channels: self.channels.deep_view(),
        }
    }
}

/// Wire bytes of one channel entry.
pub open spec fn channel_bytes(c: (u8, Seq<u8>)) -> Seq<u8> {
    seq![c.0] + be16((c.1.len() % 0x1_0000) as u16) + c.1
}

/// Wire bytes of a list of channel entries, in order.
pub open spec fn channels_bytes(cs: Seq<(u8, Seq<u8>)>) -> Seq<u8>
    decreases cs.len(),
{
    if cs.len() == 0 {
        seq![]
    } else {
        channels_bytes(cs.drop_last()) + channel_bytes(cs.last())
    }
}

/// The channel entries read from `s` starting at `pos`, reading at most
/// `remaining` entries and stopping at the first entry that does not fit.
pub open spec fn decode_channels(s: Seq<u8>, pos: int, remaining: nat) -> Seq<(u8, Seq<u8>)>
    decreases remaining,
{
    if remaining == 0 || pos + 3 > s.len() {
        seq![]
    } else if pos + 3 + read_be16(s, pos + 1) > s.len() {
        seq![]
    } else {
        seq![(s[pos], s.subrange(pos + 3, pos + 3 + read_be16(s, pos + 1)))] + decode_channels(
            s,
            pos + 3 + read_be16(s, pos + 1),
            (remaining - 1) as nat,
        )
    }
}

/// Whether every channel entry fits the 16-bit length field.
pub open spec fn channels_fit(cs: Seq<(u8, Seq<u8>)>) -> bool {
    forall|i: int| 0 <= i < cs.len() ==> (#[trigger] cs[i]).1.len() <= 0xFFFF
}

proof fn lemma_channels_bytes_first(cs: Seq<(u8, Seq<u8>)>)
    requires
        cs.len() > 0,
    ensures
        channels_bytes(cs) =~= channel_bytes(cs[0]) + channels_bytes(cs.drop_first()),
    decreases cs.len(),
{
    if cs.len() == 1 {
        assert(cs.drop_last() =~= seq![]);
        assert(cs.drop_first() =~= seq![]);
    } else {
        lemma_channels_bytes_first(cs.drop_last());
        assert(cs.drop_last().drop_first() =~= cs.drop_first().drop_last());
        assert(cs.drop_first().last() == cs.last());
        assert(cs.drop_last()[0] == cs[0]);
    }
}

proof fn lemma_decode_channels(cs: Seq<(u8, Seq<u8>)>, pre: Seq<u8>, rest: Seq<u8>)
    requires
        channels_fit(cs),
    ensures
        decode_channels(pre + channels_bytes(cs) + rest, pre.len() as int, cs.len()) =~= cs,
    decreases cs.len(),
{
    if cs.len() > 0 {
        lemma_channels_bytes_first(cs);
        let c = cs[0];
        let n = c.1.len() as u16;
        assert(cs[0].1.len() <= 0xFFFF);
        let s = pre + channels_bytes(cs) + rest;
        let p = pre.len() as int;
        let pre2 = pre + channel_bytes(c);
        assert(s =~= pre2 + channels_bytes(cs.drop_first()) + rest);
        lemma_be16(n, s, p + 1);
        assert(s.subrange(p + 1, p + 3) =~= be16(n));
        assert(s[p] == c.0);
        assert(s.subrange(p + 3, p + 3 + n) =~= c.1);
        assert(channels_fit(cs.drop_first())) by {
            assert forall|i: int| 0 <= i < cs.drop_first().len() implies (
            #[trigger] cs.drop_first()[i]).1.len() <= 0xFFFF by {
                assert(cs.drop_first()[i] == cs[i + 1]);
            }
        }
        lemma_decode_channels(cs.drop_first(), pre2, rest);
        assert(cs =~= seq![c] + cs.drop_first());
    }
}

/// How many leading channel entries lie wholly within `room` bytes.
pub open spec fn fitting_channels(cs: Seq<(u8, Seq<u8>)>, room: int) -> nat
    decreases cs.len(),
{
    if cs.len() == 0 || channel_bytes(cs[0]).len() > room {
        0
    } else {
        1 + fitting_channels(cs.drop_first(), room - channel_bytes(cs[0]).len())
    }
}

proof fn lemma_decode_channels_cut(cs: Seq<(u8, Seq<u8>)>, pre: Seq<u8>, len: int)
    requires
        channels_fit(cs),
        pre.len() <= len <= pre.len() + channels_bytes(cs).len(),
    ensures
        fitting_channels(cs, len - pre.len()) <= cs.len(),
        decode_channels((pre + channels_bytes(cs)).subrange(0, len), pre.len() as int, cs.len())
            =~= cs.take(fitting_channels(cs, len - pre.len()) as int),
    decreases cs.len(),
{
    let p = pre.len() as int;
    let full = pre + channels_bytes(cs);
    let s = full.subrange(0, len);
    if cs.len() == 0 {
        assert(cs.take(0) =~= Seq::<(u8, Seq<u8>)>::empty());
    } else {
        lemma_channels_bytes_first(cs);
        let c = cs[0];
        assert(cs[0].1.len() <= 0xFFFF);
        let n = c.1.len() as u16;
        let pre2 = pre + channel_bytes(c);
        assert(full =~= pre2 + channels_bytes(cs.drop_first()));
        lemma_be16(n, s, p + 1);
        assert(channel_bytes(c).len() == 3 + c.1.len());
        if p + 3 > len {
            assert(cs.take(0) =~= Seq::<(u8, Seq<u8>)>::empty());
        } else {
            assert(s.subrange(p + 1, p + 3) =~= be16(n));
            if p + 3 + n > len {
                assert(cs.take(0) =~= Seq::<(u8, Seq<u8>)>::empty());
            } else {
                assert(s[p] == c.0);
                assert(s.subrange(p + 3, p + 3 + n) =~= c.1);
                assert(channels_fit(cs.drop_first())) by {
                    assert forall|i: int| 0 <= i < cs.drop_first().len() implies (
                    #[trigger] cs.drop_first()[i]).1.len() <= 0xFFFF by {
                        assert(cs.drop_first()[i] == cs[i + 1]);
                    }
                }
                lemma_decode_channels_cut(cs.drop_first(), pre2, len);
                let k = fitting_channels(cs.drop_first(), len - pre2.len());
                assert(cs.take(k + 1 as int) =~= seq![c] + cs.drop_first().take(k as int));
            }
        }
    }
}

impl MultiChannelAudioView {
    /// Wire bytes of the packet. The count byte holds the number of channels
    /// modulo 256; all channels follow it.
    pub open spec fn spec_bytes(self) -> Seq<u8> {
        header_bytes(PacketType::AudioMultiCh, Flags(0)) + be32(self.sequence) + be32(
            self.timestamp,
        ) + seq![(self.channels.len() % 0x100) as u8] + channels_bytes(self.channels)
    }

    /// What decoding `s` as a multi-channel audio packet gives. Channel
    /// entries that do not fit the buffer end the list without an error.
    pub open spec fn spec_decode(s: Seq<u8>) -> Result<MultiChannelAudioView, ProtocolError> {
        match Header::spec_decode(s) {
            Err(e) => Err(e),
            Ok(h) => if h.packet_type != PacketType::AudioMultiCh {
                Err(ProtocolError::UnexpectedPacketType(h.packet_type))
            } else if s.len() < 13 {
                Err(ProtocolError::TooShort { len: s.len() as usize, min: 13 })
            } else {
                Ok(
                    MultiChannelAudioView {
                        sequence: read_be32(s, 4),
                        timestamp: read_be32(s, 8),
                        channels: decode_channels(s, 13, s[12] as nat),
                    },
                )
            },
        }
    }

    /// Decoding the bytes of a packet with at most 255 channels, each fitting
    /// the 16-bit length field, gives the packet back, whatever follows it.
    pub proof fn lemma_roundtrip(self, rest: Seq<u8>)
        requires
            self.channels.len() <= 255,
            channels_fit(self.channels),
        ensures
            MultiChannelAudioView::spec_decode(self.spec_bytes() + rest) == Ok::<
                MultiChannelAudioView,
                ProtocolError,
            >(self),
    {
        let s = self.spec_bytes() + rest;
        let h = Header { packet_type: PacketType::AudioMultiCh, flags: Flags(0) };
        h.lemma_roundtrip(s.subrange(4, s.len() as int));
        assert(s =~= h.spec_bytes() + s.subrange(4, s.len() as int));
        lemma_be32(self.sequence, s, 4);
        lemma_be32(self.timestamp, s, 8);
        assert(s.subrange(4, 8) =~= be32(self.sequence));
        assert(s.subrange(8, 12) =~= be32(self.timestamp));
        let pre = header_bytes(PacketType::AudioMultiCh, Flags(0)) + be32(self.sequence) + be32(
            self.timestamp,
        ) + seq![(self.channels.len() % 0x100) as u8];
        assert(s =~= pre + channels_bytes(self.channels) + rest);
        lemma_decode_channels(self.channels, pre, rest);
        assert(s[12] as nat == self.channels.len());
        let d = MultiChannelAudioView::spec_decode(s);
        assert(d matches Ok(v) && v =~= self);
    }

    /// The bytes of a packet cut anywhere after the 13-byte fixed part
    /// decode without an error: sequence and timestamp as sent, and the
    /// longest run of leading channels whose entries lie wholly within the
    /// cut.
    pub proof fn lemma_truncated(self, len: int)
        requires
            self.channels.len() <= 255,
            channels_fit(self.channels),
            13 <= len <= self.spec_bytes().len(),
        ensures
            MultiChannelAudioView::spec_decode(self.spec_bytes().subrange(0, len)) == Ok::<
                MultiChannelAudioView,
                ProtocolError,
            >(
                MultiChannelAudioView {
                    channels: self.channels.take(fitting_channels(self.channels, len - 13) as int),
                    ..self
                },
            ),
    {
        let full = self.spec_bytes();
        let s = full.subrange(0, len);
        let h = Header { packet_type: PacketType::AudioMultiCh, flags: Flags(0) };
        h.lemma_roundtrip(s.subrange(4, s.len() as int));
        assert(s =~= h.spec_bytes() + s.subrange(4, s.len() as int));
        lemma_be32(self.sequence, s, 4);
        lemma_be32(self.timestamp, s, 8);
        assert(s.subrange(4, 8) =~= be32(self.sequence));
        assert(s.subrange(8, 12) =~= be32(self.timestamp));
        let pre = header_bytes(PacketType::AudioMultiCh, Flags(0)) + be32(self.sequence) + be32(
            self.timestamp,
        ) + seq![(self.channels.len() % 0x100) as u8];
        assert(full =~= pre + channels_bytes(self.channels));
        lemma_decode_channels_cut(self.channels, pre, len);
        assert(s[12] as nat == self.channels.len());
        let d = MultiChannelAudioView::spec_decode(s);
        assert(d matches Ok(v) && v =~= MultiChannelAudioView {
            channels: self.channels.take(fitting_channels(self.channels, len - 13) as int),
            ..self
        });
    }
}

impl MultiChannelAudioPacket {
    /// Size of the fixed part.
    pub const HEADER_SIZE: usize = 13;

    /// Appends the packet to `buf`.
    pub fn serialize(&self, buf: &mut Vec<u8>)
        ensures
            final(buf)@ == old(buf)@ + self@.spec_bytes(),
    {
        Header::new(PacketType::AudioMultiCh, Flags::none()).append_to(buf);
        push_be32(buf, self.sequence);
        push_be32(buf, self.timestamp);
        buf.push((self.channels.len() % 0x100) as u8);
        let ghost start = buf@;
        let ghost cs = self.channels.deep_view();
        let n = self.channels.len();
        for i in 0..n
            invariant
                n == self.channels@.len(),
                cs == self.channels.deep_view(),
                buf@ == start + channels_bytes(cs.subrange(0, i as int)),
        {
            let ch = &self.channels[i];
            buf.push(ch.0);
            push_be16(buf, (ch.1.len() % 0x1_0000) as u16);
            push_bytes(buf, ch.1.as_slice());
            proof {
                let sub = cs.subrange(0, i + 1);
                assert(sub.drop_last() =~= cs.subrange(0, i as int));
                assert(sub.last() == cs[i as int]);
                assert(cs[i as int] == (ch.0, ch.1@));
            }
        }
        assert(cs.subrange(0, n as int) =~= cs);
        assert(buf@ =~= old(buf)@ + self@.spec_bytes());
    }

    pub fn deserialize(buf: &[u8]) -> (r: Result<MultiChannelAudioPacket, ProtocolError>)
        ensures
            match r {
                Ok(p) => MultiChannelAudioView::spec_decode(buf@) == Ok::<
                    MultiChannelAudioView,
                    ProtocolError,
                >(p@),
                Err(e) => MultiChannelAudioView::spec_decode(buf@) == Err::<
                    MultiChannelAudioView,
                    ProtocolError,
                >(e),
            },
    {
        let header = Header::deserialize(buf)?;
        if !matches!(header.packet_type, PacketType::AudioMultiCh) {
            return Err(ProtocolError::UnexpectedPacketType(header.packet_type));
        }
        if buf.len() < 13 {
            return Err(ProtocolError::TooShort { len: buf.len(), min: 13 });
        }
        let sequence = get_be32(buf, 4);
        let timestamp = get_be32(buf, 8);
        let channel_count = buf[12] as usize;
        let mut channels: Vec<(u8, Vec<u8>)> = Vec::with_capacity(channel_count);
        let mut pos: usize = 13;
        let mut i: usize = 0;
        let ghost s = buf@;
        while i < channel_count
            invariant
                s == buf@,
                s.len() == buf.len(),
                channel_count == s[12] as nat,
                13 <= pos <= buf.len(),
                i <= channel_count,
                channels.deep_view() + decode_channels(s, pos as int, (channel_count - i) as nat)
                    =~= decode_channels(s, 13, channel_count as nat),
            ensures
                decode_channels(s, pos as int, (channel_count - i) as nat) =~= Seq::<
                    (u8, Seq<u8>),
                >::empty(),
            decreases channel_count - i,
        {
            if buf.len() - pos < 3 {
                break;
            }
            let ch_id = buf[pos];
            let opus_len = get_be16(buf, pos + 1) as usize;
            if buf.len() - pos - 3 < opus_len {
                break;
            }
            let opus_data = copy_range(buf, pos + 3, pos + 3 + opus_len);
            let ghost before = channels.deep_view();
            let ghost old_items = channels@;
            let ghost data_view = opus_data@;
            proof {
                assert(opus_data.deep_view() =~= opus_data@);
            }
            channels.push((ch_id, opus_data));
            proof {
                let nv = channels.deep_view();
                assert forall|k: int| 0 <= k < before.len() implies nv[k] == before[k] by {
                    assert(channels@[k] == old_items[k]);
                }
                assert(nv[before.len() as int] == (ch_id, data_view));
                assert(nv =~= before.push((ch_id, data_view)));
            }
            pos = pos + 3 + opus_len;
            i = i + 1;
        }
        let r = MultiChannelAudioPacket { sequence, timestamp, channels };
        assert(r@ =~= MultiChannelAudioView::spec_decode(buf@).unwrap());
        Ok(r)
    }
}

} // verus!
