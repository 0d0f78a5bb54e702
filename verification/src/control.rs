//! Small fixed-size packets: control, disconnect, PTT-denied, frequency,
//! mode and S-meter.

use vstd::prelude::*;

use crate::codes::{ControlId, PacketType};
use crate::flags::Flags;
use crate::header::{header_bytes, Header, ProtocolError};
use crate::wire::{
    be16, be64, copy_into, get_be16, get_be64, lemma_be16, lemma_be64, lemma_read_in_context, push_be16, push_be64, read_be16,
    read_be64,
};

verus! {

/// Control packet: header(4) + control_id(1) + value(2) = 7 bytes.
#[derive(Debug, Clone, Copy, PartialEq, Eq, Structural)]
pub struct ControlPacket {
    pub control_id: ControlId,
    pub value: u16,
}

impl View for ControlPacket {
    type V = ControlPacket;

    open spec fn view(&self) -> ControlPacket {
        *self
    }
}

impl ControlPacket {
    pub const SIZE: usize = 7;

    /// Wire bytes of this packet.
    pub open spec fn spec_bytes(self) -> Seq<u8> {
        header_bytes(PacketType::Control, Flags(0)) + seq![self.control_id.spec_code()] + be16(
            self.value,
        )
    }

    /// What decoding `s` as a control packet gives.
    pub open spec fn spec_decode(s: Seq<u8>) -> Result<ControlPacket, ProtocolError> {
        match Header::spec_decode(s) {
            Err(e) => Err(e),
            Ok(h) => if h.packet_type != PacketType::Control {
                Err(ProtocolError::UnexpectedPacketType(h.packet_type))
            } else if s.len() < 7 {
                Err(ProtocolError::TooShort { len: s.len() as usize, min: 7 })
            } else {
                match ControlId::spec_from_code(s[4]) {
                    None => Err(ProtocolError::UnknownControlId(s[4])),
                    Some(id) => Ok(ControlPacket { control_id: id, value: read_be16(s, 5) }),
                }
            },
        }
    }

    pub fn serialize(&self, buf: &mut [u8; 7])
        ensures
            final(buf)@ == self.spec_bytes(),
    {
        let mut v: Vec<u8> = Vec::with_capacity(7);
        Header::new(PacketType::Control, Flags::none()).append_to(&mut v);
        v.push(self.control_id.code());
        push_be16(&mut v, self.value);
        assert(v@ =~= self.spec_bytes());
        copy_into(buf, &v);
    }

    pub fn deserialize(buf: &[u8]) -> (r: Result<ControlPacket, ProtocolError>)
        ensures
            r == ControlPacket::spec_decode(buf@),
    {
        let header = Header::deserialize(buf)?;
        if !matches!(header.packet_type, PacketType::Control) {
            return Err(ProtocolError::UnexpectedPacketType(header.packet_type));
        }
        if buf.len() < 7 {
            return Err(ProtocolError::TooShort { len: buf.len(), min: 7 });
        }
        match ControlId::from_u8(buf[4]) {
            None => Err(ProtocolError::UnknownControlId(buf[4])),
            Some(id) => Ok(ControlPacket { control_id: id, value: get_be16(buf, 5) }),
        }
    }

    /// Decoding the bytes of a control packet gives the packet back.
    pub proof fn lemma_roundtrip(self)
        ensures
            ControlPacket::spec_decode(self.spec_bytes()) == Ok::<ControlPacket, ProtocolError>(
                self,
            ),
    {
        let h = Header { packet_type: PacketType::Control, flags: Flags(0) };
        let rest = seq![self.control_id.spec_code()] + be16(self.value);
        h.lemma_roundtrip(rest);
        assert(self.spec_bytes() =~= h.spec_bytes() + rest);
        self.control_id.lemma_code_roundtrip(0);
        lemma_be16(self.value, rest, 0);
        lemma_read_in_context(h.spec_bytes() + seq![self.control_id.spec_code()], be16(self.value), seq![]);
        assert(h.spec_bytes() + seq![self.control_id.spec_code()] + be16(self.value) + seq![] =~= self.spec_bytes());
    }

    /// The control packet on the wire: seven bytes, the control's code at
    /// offset 4 and its value big-endian in bytes 5 and 6 (high byte first).
    /// The decoder reads the same places: a decoded control is the one whose
    /// code is byte 4, with the value `256 * byte 5 + byte 6`.
    pub proof fn lemma_wire_layout(self, s: Seq<u8>)
        ensures
            self.spec_bytes().len() == 7,
            self.spec_bytes()[4] == self.control_id.spec_code(),
            self.spec_bytes()[5] == self.value / 256,
            self.spec_bytes()[6] == self.value % 256,
            ControlPacket::spec_decode(s) matches Ok(q) ==> {
                &&& q.control_id.spec_code() == s[4]
                &&& q.value == s[5] * 256 + s[6]
            },
    {
        if s.len() >= 7 {
            ControlId::Rx1AfGain.lemma_code_roundtrip(s[4]);
        }
    }
}

/// Disconnect packet: just a header (4 bytes).
pub struct DisconnectPacket;

impl DisconnectPacket {
    pub const SIZE: usize = 4;

    pub fn serialize(buf: &mut [u8; 4])
        ensures
            final(buf)@ == header_bytes(PacketType::Disconnect, Flags(0)),
    {
        let mut v: Vec<u8> = Vec::with_capacity(4);
        Header::new(PacketType::Disconnect, Flags::none()).append_to(&mut v);
        assert(v@ =~= header_bytes(PacketType::Disconnect, Flags(0)));
        copy_into(buf, &v);
    }
}

/// PTT denied packet: just a header (4 bytes), sent when another client
/// holds TX.
pub struct PttDeniedPacket;

impl PttDeniedPacket {
    pub const SIZE: usize = 4;

    pub fn serialize(buf: &mut [u8; 4])
        ensures
            final(buf)@ == header_bytes(PacketType::PttDenied, Flags(0)),
    {
        let mut v: Vec<u8> = Vec::with_capacity(4);
        Header::new(PacketType::PttDenied, Flags::none()).append_to(&mut v);
        assert(v@ =~= header_bytes(PacketType::PttDenied, Flags(0)));
        copy_into(buf, &v);
    }
}

/// Frequency packet: header(4) + frequency_hz(8) = 12 bytes.
#[derive(Debug, Clone, Copy, PartialEq, Eq, Structural)]
pub struct FrequencyPacket {
    pub frequency_hz: u64,
}

impl View for FrequencyPacket {
    type V = FrequencyPacket;

    open spec fn view(&self) -> FrequencyPacket {
        *self
    }
}

impl FrequencyPacket {
    pub const SIZE: usize = 12;

    /// The packet types that carry a frequency packet.
    pub open spec fn is_frequency_type(t: PacketType) -> bool {
        t == PacketType::Frequency || t == PacketType::FrequencyRx2 || t
            == PacketType::FrequencyYaesu
    }

    /// Wire bytes of this packet sent as type `t`.
    pub open spec fn spec_bytes(self, t: PacketType) -> Seq<u8> {
        header_bytes(t, Flags(0)) + be64(self.frequency_hz)
    }

    /// What decoding `s` as a frequency packet gives.
    pub open spec fn spec_decode(s: Seq<u8>) -> Result<FrequencyPacket, ProtocolError> {
        match Header::spec_decode(s) {
            Err(e) => Err(e),
            Ok(h) => if !Self::is_frequency_type(h.packet_type) {
                Err(ProtocolError::UnexpectedPacketType(h.packet_type))
            } else if s.len() < 12 {
                Err(ProtocolError::TooShort { len: s.len() as usize, min: 12 })
            } else {
                Ok(FrequencyPacket { frequency_hz: read_be64(s, 4) })
            },
        }
    }

    pub fn serialize(&self, buf: &mut [u8; 12])
        ensures
            final(buf)@ == self.spec_bytes(PacketType::Frequency),
    {
        self.serialize_as_type(buf, PacketType::Frequency);
    }

    pub fn serialize_as_type(&self, buf: &mut [u8; 12], ptype: PacketType)
        ensures
            final(buf)@ == self.spec_bytes(ptype),
    {
        let mut v: Vec<u8> = Vec::with_capacity(12);
        Header::new(ptype, Flags::none()).append_to(&mut v);
        push_be64(&mut v, self.frequency_hz);
        proof {
            lemma_be64(self.frequency_hz, v@, 0);
        }
        copy_into(buf, &v);
    }

    pub fn deserialize(buf: &[u8]) -> (r: Result<FrequencyPacket, ProtocolError>)
        ensures
            r == FrequencyPacket::spec_decode(buf@),
    {
        let header = Header::deserialize(buf)?;
        if !matches!(
            header.packet_type,
            PacketType::Frequency | PacketType::FrequencyRx2 | PacketType::FrequencyYaesu
        ) {
            return Err(ProtocolError::UnexpectedPacketType(header.packet_type));
        }
        if buf.len() < 12 {
            return Err(ProtocolError::TooShort { len: buf.len(), min: 12 });
        }
        Ok(FrequencyPacket { frequency_hz: get_be64(buf, 4) })
    }

    /// Decoding the bytes of a frequency packet, sent as any frequency type,
    /// gives the packet back.
    pub proof fn lemma_roundtrip(self, t: PacketType)
        requires
            Self::is_frequency_type(t),
        ensures
            FrequencyPacket::spec_decode(self.spec_bytes(t)) == Ok::<
                FrequencyPacket,
                ProtocolError,
            >(self),
    {
        let h = Header { packet_type: t, flags: Flags(0) };
        h.lemma_roundtrip(be64(self.frequency_hz));
        lemma_be64(self.frequency_hz, seq![], 0);
        lemma_read_in_context(h.spec_bytes(), be64(self.frequency_hz), seq![]);
        assert(h.spec_bytes() + be64(self.frequency_hz) + seq![] =~= self.spec_bytes(t));
    }
}

/// Mode packet: header(4) + mode(1) = 5 bytes.
#[derive(Debug, Clone, Copy, PartialEq, Eq, Structural)]
pub struct ModePacket {
    pub mode: u8,
}

impl View for ModePacket {
    type V = ModePacket;

    open spec fn view(&self) -> ModePacket {
        *self
    }
}

impl ModePacket {
    pub const SIZE: usize = 5;

    /// The packet types that carry a mode packet.
    pub open spec fn is_mode_type(t: PacketType) -> bool {
        t == PacketType::Mode || t == PacketType::ModeRx2
    }

    /// Wire bytes of this packet sent as type `t`.
    pub open spec fn spec_bytes(self, t: PacketType) -> Seq<u8> {
        header_bytes(t, Flags(0)) + seq![self.mode]
    }

    /// What decoding `s` as a mode packet gives.
    pub open spec fn spec_decode(s: Seq<u8>) -> Result<ModePacket, ProtocolError> {
        match Header::spec_decode(s) {
            Err(e) => Err(e),
            Ok(h) => if !Self::is_mode_type(h.packet_type) {
                Err(ProtocolError::UnexpectedPacketType(h.packet_type))
            } else if s.len() < 5 {
                Err(ProtocolError::TooShort { len: s.len() as usize, min: 5 })
            } else {
                Ok(ModePacket { mode: s[4] })
            },
        }
    }

    pub fn serialize(&self, buf: &mut [u8; 5])
        ensures
            final(buf)@ == self.spec_bytes(PacketType::Mode),
    {
        self.serialize_as_type(buf, PacketType::Mode);
    }

    pub fn serialize_as_type(&self, buf: &mut [u8; 5], ptype: PacketType)
        ensures
            final(buf)@ == self.spec_bytes(ptype),
    {
        let mut v: Vec<u8> = Vec::with_capacity(5);
        Header::new(ptype, Flags::none()).append_to(&mut v);
        v.push(self.mode);
        assert(v@ =~= self.spec_bytes(ptype));
        copy_into(buf, &v);
    }

    pub fn deserialize(buf: &[u8]) -> (r: Result<ModePacket, ProtocolError>)
        ensures
            r == ModePacket::spec_decode(buf@),
    {
        let header = Header::deserialize(buf)?;
        if !matches!(header.packet_type, PacketType::Mode | PacketType::ModeRx2) {
            return Err(ProtocolError::UnexpectedPacketType(header.packet_type));
        }
        if buf.len() < 5 {
            return Err(ProtocolError::TooShort { len: buf.len(), min: 5 });
        }
        Ok(ModePacket { mode: buf[4] })
    }

    /// Decoding the bytes of a mode packet gives the packet back.
    pub proof fn lemma_roundtrip(self, t: PacketType)
        requires
            Self::is_mode_type(t),
        ensures
            ModePacket::spec_decode(self.spec_bytes(t)) == Ok::<ModePacket, ProtocolError>(self),
    {
        Header { packet_type: t, flags: Flags(0) }.lemma_roundtrip(seq![self.mode]);
    }
}

/// S-meter packet: header(4) + level(2) = 6 bytes. The level is a signed
/// deci-unit (dBm x 10 in RX, watts x 10 while PTT is set).
#[derive(Debug, Clone, Copy, PartialEq, Eq, Structural)]
pub struct SmeterPacket {
    pub level: i16,
    pub flags: Flags,
}

impl View for SmeterPacket {
    type V = SmeterPacket;

    open spec fn view(&self) -> SmeterPacket {
        *self
    }
}

impl SmeterPacket {
    pub const SIZE: usize = 6;

    /// The packet types that carry an S-meter packet.
    pub open spec fn is_smeter_type(t: PacketType) -> bool {
        t == PacketType::Smeter || t == PacketType::SmeterRx2 || t == PacketType::SmeterSig || t
            == PacketType::SmeterMaxBin || t == PacketType::SmeterRx2Sig || t
            == PacketType::SmeterRx2MaxBin
    }

    /// Wire bytes of this packet sent as type `t` (two's complement level).
    pub open spec fn spec_bytes(self, t: PacketType) -> Seq<u8> {
        header_bytes(t, self.flags) + be16(self.level as u16)
    }

    /// What decoding `s` as an S-meter packet gives.
    pub open spec fn spec_decode(s: Seq<u8>) -> Result<SmeterPacket, ProtocolError> {
        match Header::spec_decode(s) {
            Err(e) => Err(e),
            Ok(h) => if !Self::is_smeter_type(h.packet_type) {
                Err(ProtocolError::UnexpectedPacketType(h.packet_type))
            } else if s.len() < 6 {
                Err(ProtocolError::TooShort { len: s.len() as usize, min: 6 })
            } else {
                Ok(SmeterPacket { level: read_be16(s, 4) as i16, flags: h.flags })
            },
        }
    }

    pub fn serialize(&self, buf: &mut [u8; 6])
        ensures
            final(buf)@ == self.spec_bytes(PacketType::Smeter),
    {
        self.serialize_as_type(buf, PacketType::Smeter);
    }

    pub fn serialize_as_type(&self, buf: &mut [u8; 6], ptype: PacketType)
        ensures
            final(buf)@ == self.spec_bytes(ptype),
    {
        let mut v: Vec<u8> = Vec::with_capacity(6);
        Header::new(ptype, self.flags).append_to(&mut v);
        push_be16(&mut v, self.level as u16);
        proof {
            lemma_be16(self.level as u16, v@, 0);
        }
        copy_into(buf, &v);
    }

    pub fn deserialize(buf: &[u8]) -> (r: Result<SmeterPacket, ProtocolError>)
        ensures
            r == SmeterPacket::spec_decode(buf@),
    {
        let header = Header::deserialize(buf)?;
        if !matches!(
            header.packet_type,
            PacketType::Smeter | PacketType::SmeterRx2 | PacketType::SmeterSig
                | PacketType::SmeterMaxBin | PacketType::SmeterRx2Sig
                | PacketType::SmeterRx2MaxBin
        ) {
            return Err(ProtocolError::UnexpectedPacketType(header.packet_type));
        }
        if buf.len() < 6 {
            return Err(ProtocolError::TooShort { len: buf.len(), min: 6 });
        }
        Ok(SmeterPacket { level: get_be16(buf, 4) as i16, flags: header.flags })
    }

    /// Decoding the bytes of an S-meter packet gives the packet back,
    /// negative levels included.
    pub proof fn lemma_roundtrip(self, t: PacketType)
        requires
            Self::is_smeter_type(t),
        ensures
            SmeterPacket::spec_decode(self.spec_bytes(t)) == Ok::<SmeterPacket, ProtocolError>(
                self,
            ),
    {
        let h = Header { packet_type: t, flags: self.flags };
        let x = self.level;
        assert((x as u16) as i16 == x) by (bit_vector);
        h.lemma_roundtrip(be16(x as u16));
        lemma_be16(x as u16, seq![], 0);
        lemma_read_in_context(h.spec_bytes(), be16(x as u16), seq![]);
        assert(h.spec_bytes() + be16(x as u16) + seq![] =~= self.spec_bytes(t));
    }
}

} // verus!
