//! Heartbeat (client to server) and heartbeat acknowledgement (server to
//! client), both with backward-compatible shorter forms.

use vstd::prelude::*;

use crate::codes::PacketType;
use crate::flags::{Capabilities, Flags, ServerStateFlags};
use crate::header::{header_bytes, Header, ProtocolError};
use crate::wire::{
    be16, be32, copy_into, get_be16, get_be32, lemma_be16, lemma_be32, push_be16, push_be32,
    read_be16, read_be32,
};

verus! {

/// Heartbeat: header(4) + sequence(4) + local_time(4) + rtt(2) + loss(1) +
/// jitter(1) + capabilities(4) = 20 bytes; 16-byte heartbeats without
/// capabilities are still accepted.
#[derive(Debug, Clone, Copy, PartialEq, Eq, Structural)]
pub struct Heartbeat {
    pub flags: Flags,
    pub sequence: u32,
    /// Local timestamp in milliseconds (wrapping).
    pub local_time: u32,
    /// Last measured round-trip time in milliseconds.
    pub rtt_ms: u16,
    /// Packet loss percentage (0-100).
    pub loss_percent: u8,
    /// Jitter in milliseconds.
    pub jitter_ms: u8,
    /// Client capabilities (empty when absent).
    pub capabilities: Capabilities,
}

impl View for Heartbeat {
    type V = Heartbeat;

    open spec fn view(&self) -> Heartbeat {
        *self
    }
}

impl Heartbeat {
    /// Size of the form without capabilities.
    pub const MIN_SIZE: usize = 16;

    /// Full size including capabilities.
    pub const SIZE: usize = 20;

    /// Wire bytes of this heartbeat.
    pub open spec fn spec_bytes(self) -> Seq<u8> {
        header_bytes(PacketType::Heartbeat, self.flags) + be32(self.sequence) + be32(
            self.local_time,
        ) + be16(self.rtt_ms) + seq![self.loss_percent, self.jitter_ms] + be32(
            self.capabilities.0,
        )
    }

    /// What decoding `s` as a heartbeat gives.
    pub open spec fn spec_decode(s: Seq<u8>) -> Result<Heartbeat, ProtocolError> {
        match Header::spec_decode(s) {
            Err(e) => Err(e),
            Ok(h) => if h.packet_type != PacketType::Heartbeat {
                Err(ProtocolError::UnexpectedPacketType(h.packet_type))
            } else if s.len() < 16 {
                Err(ProtocolError::TooShort { len: s.len() as usize, min: 16 })
            } else {
                Ok(
                    Heartbeat {
                        flags: h.flags,
                        sequence: read_be32(s, 4),
                        local_time: read_be32(s, 8),
                        rtt_ms: read_be16(s, 12),
                        loss_percent: s[14],
                        jitter_ms: s[15],
                        capabilities: if s.len() >= 20 {
                            Capabilities(read_be32(s, 16))
                        } else {
                            Capabilities(0)
                        },
                    },
                )
            },
        }
    }

    pub fn serialize(&self, buf: &mut [u8; 20])
        ensures
            final(buf)@ == self.spec_bytes(),
    {
        let mut v: Vec<u8> = Vec::with_capacity(20);
        Header::new(PacketType::Heartbeat, self.flags).append_to(&mut v);
        push_be32(&mut v, self.sequence);
        push_be32(&mut v, self.local_time);
        push_be16(&mut v, self.rtt_ms);
        v.push(self.loss_percent);
        v.push(self.jitter_ms);
        push_be32(&mut v, self.capabilities.0);
        proof {
            lemma_be32(self.sequence, v@, 0);
            lemma_be32(self.local_time, v@, 0);
            lemma_be16(self.rtt_ms, v@, 0);
            lemma_be32(self.capabilities.0, v@, 0);
            assert(v@ =~= self.spec_bytes());
        }
        copy_into(buf, &v);
    }

    pub fn deserialize(buf: &[u8]) -> (r: Result<Heartbeat, ProtocolError>)
        ensures
            r == Heartbeat::spec_decode(buf@),
    {
        let header = Header::deserialize(buf)?;
        if !matches!(header.packet_type, PacketType::Heartbeat) {
            return Err(ProtocolError::UnexpectedPacketType(header.packet_type));
        }
        if buf.len() < 16 {
            return Err(ProtocolError::TooShort { len: buf.len(), min: 16 });
        }
        let capabilities = if buf.len() >= 20 {
            Capabilities(get_be32(buf, 16))
        } else {
            Capabilities::none()
        };
        Ok(
            Heartbeat {
                flags: header.flags,
                sequence: get_be32(buf, 4),
                local_time: get_be32(buf, 8),
                rtt_ms: get_be16(buf, 12),
                loss_percent: buf[14],
                jitter_ms: buf[15],
                capabilities,
            },
        )
    }

    /// Decoding the bytes of a heartbeat gives it back; decoding only its
    /// first 16 bytes (the form older clients send) gives it back with an
    /// empty capability set.
    pub proof fn lemma_roundtrip(self)
        ensures
            Heartbeat::spec_decode(self.spec_bytes()) == Ok::<Heartbeat, ProtocolError>(self),
            Heartbeat::spec_decode(self.spec_bytes().subrange(0, 16)) == Ok::<
                Heartbeat,
                ProtocolError,
            >(Heartbeat { capabilities: Capabilities(0), ..self }),
    {
        let s = self.spec_bytes();
        let h = Header { packet_type: PacketType::Heartbeat, flags: self.flags };
        h.lemma_roundtrip(s.subrange(4, 20));
        h.lemma_roundtrip(s.subrange(4, 16));
        assert(s =~= h.spec_bytes() + s.subrange(4, 20));
        assert(s.subrange(0, 16) =~= h.spec_bytes() + s.subrange(4, 16));
        lemma_be32(self.sequence, s, 4);
        lemma_be32(self.local_time, s, 8);
        lemma_be16(self.rtt_ms, s, 12);
        lemma_be32(self.capabilities.0, s, 16);
        assert(s.subrange(4, 8) =~= be32(self.sequence));
        assert(s.subrange(8, 12) =~= be32(self.local_time));
        assert(s.subrange(12, 14) =~= be16(self.rtt_ms));
        assert(s.subrange(16, 20) =~= be32(self.capabilities.0));
    }
}

/// Heartbeat acknowledgement: header(4) + echo_seq(4) + echo_time(4) +
/// capabilities(4) + state_flags(4) = 20 bytes; the 12- and 16-byte forms of
/// older servers are still accepted.
#[derive(Debug, Clone, Copy, PartialEq, Eq, Structural)]
pub struct HeartbeatAck {
    pub flags: Flags,
    pub echo_sequence: u32,
    pub echo_time: u32,
    /// Negotiated capabilities (intersection of client and server sets).
    pub capabilities: Capabilities,
    /// Server runtime-state flags; empty when the sender predates them.
    pub state_flags: ServerStateFlags,
}

impl View for HeartbeatAck {
    type V = HeartbeatAck;

    open spec fn view(&self) -> HeartbeatAck {
        *self
    }
}

impl HeartbeatAck {
    /// Size of the form without capabilities or state flags.
    pub const MIN_SIZE: usize = 12;

    /// Size of the form with capabilities but without state flags.
    pub const SIZE_WITH_CAPS: usize = 16;

    /// Full size.
    pub const SIZE: usize = 20;

    /// Wire bytes of this acknowledgement.
    pub open spec fn spec_bytes(self) -> Seq<u8> {
        header_bytes(PacketType::HeartbeatAck, self.flags) + be32(self.echo_sequence) + be32(
            self.echo_time,
        ) + be32(self.capabilities.0) + be32(self.state_flags.0)
    }

    /// What decoding `s` as a heartbeat acknowledgement gives.
    pub open spec fn spec_decode(s: Seq<u8>) -> Result<HeartbeatAck, ProtocolError> {
        match Header::spec_decode(s) {
            Err(e) => Err(e),
            Ok(h) => if h.packet_type != PacketType::HeartbeatAck {
                Err(ProtocolError::UnexpectedPacketType(h.packet_type))
            } else if s.len() < 12 {
                Err(ProtocolError::TooShort { len: s.len() as usize, min: 12 })
            } else {
                Ok(
                    HeartbeatAck {
                        flags: h.flags,
                        echo_sequence: read_be32(s, 4),
                        echo_time: read_be32(s, 8),
                        capabilities: if s.len() >= 16 {
                            Capabilities(read_be32(s, 12))
                        } else {
                            Capabilities(0)
                        },
                        state_flags: if s.len() >= 20 {
                            ServerStateFlags(read_be32(s, 16))
                        } else {
                            ServerStateFlags(0)
                        },
                    },
                )
            },
        }
    }

    pub fn serialize(&self, buf: &mut [u8; 20])
        ensures
            final(buf)@ == self.spec_bytes(),
    {
        let mut v: Vec<u8> = Vec::with_capacity(20);
        Header::new(PacketType::HeartbeatAck, self.flags).append_to(&mut v);
        push_be32(&mut v, self.echo_sequence);
        push_be32(&mut v, self.echo_time);
        push_be32(&mut v, self.capabilities.0);
        push_be32(&mut v, self.state_flags.0);
        proof {
            lemma_be32(self.echo_sequence, v@, 0);
            lemma_be32(self.echo_time, v@, 0);
            lemma_be32(self.capabilities.0, v@, 0);
            lemma_be32(self.state_flags.0, v@, 0);
            assert(v@ =~= self.spec_bytes());
        }
        copy_into(buf, &v);
    }

    pub fn deserialize(buf: &[u8]) -> (r: Result<HeartbeatAck, ProtocolError>)
        ensures
            r == HeartbeatAck::spec_decode(buf@),
    {
        let header = Header::deserialize(buf)?;
        if !matches!(header.packet_type, PacketType::HeartbeatAck) {
            return Err(ProtocolError::UnexpectedPacketType(header.packet_type));
        }
        if buf.len() < 12 {
            return Err(ProtocolError::TooShort { len: buf.len(), min: 12 });
        }
        let capabilities = if buf.len() >= 16 {
            Capabilities(get_be32(buf, 12))
        } else {
            Capabilities::none()
        };
        let state_flags = if buf.len() >= 20 {
            ServerStateFlags(get_be32(buf, 16))
        } else {
            ServerStateFlags::none()
        };
        Ok(
            HeartbeatAck {
                flags: header.flags,
                echo_sequence: get_be32(buf, 4),
                echo_time: get_be32(buf, 8),
                capabilities,
                state_flags,
            },
        )
    }

    /// Decoding the bytes of an acknowledgement gives it back; decoding its
    /// first 16 or 12 bytes (the forms older servers send) gives it back with
    /// the missing trailing fields empty.
    pub proof fn lemma_roundtrip(self)
        ensures
            HeartbeatAck::spec_decode(self.spec_bytes()) == Ok::<HeartbeatAck, ProtocolError>(
                self,
            ),
            HeartbeatAck::spec_decode(self.spec_bytes().subrange(0, 16)) == Ok::<
                HeartbeatAck,
                ProtocolError,
            >(HeartbeatAck { state_flags: ServerStateFlags(0), ..self }),
            HeartbeatAck::spec_decode(self.spec_bytes().subrange(0, 12)) == Ok::<
                HeartbeatAck,
                ProtocolError,
            >(
                HeartbeatAck {
                    capabilities: Capabilities(0),
                    state_flags: ServerStateFlags(0),
                    ..self
                },
            ),
    {
        let s = self.spec_bytes();
        let h = Header { packet_type: PacketType::HeartbeatAck, flags: self.flags };
        h.lemma_roundtrip(s.subrange(4, 20));
        h.lemma_roundtrip(s.subrange(4, 16));
        h.lemma_roundtrip(s.subrange(4, 12));
        assert(s =~= h.spec_bytes() + s.subrange(4, 20));
        assert(s.subrange(0, 16) =~= h.spec_bytes() + s.subrange(4, 16));
        assert(s.subrange(0, 12) =~= h.spec_bytes() + s.subrange(4, 12));
        lemma_be32(self.echo_sequence, s, 4);
        lemma_be32(self.echo_time, s, 8);
        lemma_be32(self.capabilities.0, s, 12);
        lemma_be32(self.state_flags.0, s, 16);
        assert(s.subrange(4, 8) =~= be32(self.echo_sequence));
        assert(s.subrange(8, 12) =~= be32(self.echo_time));
        assert(s.subrange(12, 16) =~= be32(self.capabilities.0));
        assert(s.subrange(16, 20) =~= be32(self.state_flags.0));
    }
}

} // verus!
