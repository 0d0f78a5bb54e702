//! The common four-byte packet header and the error type of every decoder.

use vstd::prelude::*;

use crate::codes::PacketType;
use crate::flags::Flags;

verus! {

/// Magic byte that starts every packet.
pub const MAGIC: u8 = 0xAA;

/// Protocol version; packets of any other version are refused.
pub const VERSION: u8 = 3;

/// Why a byte buffer could not be decoded.
#[derive(Debug, Clone, Copy, PartialEq, Eq)]
pub enum ProtocolError {
    /// Fewer than four bytes: no room for a header.
    HeaderTooShort { len: usize },
    /// The first byte is not `MAGIC`.
    InvalidMagic(u8),
    /// The second byte is not `VERSION`.
    UnsupportedVersion(u8),
    /// The third byte names no packet type.
    UnknownPacketType(u8),
    /// The header names a packet type this decoder does not handle.
    UnexpectedPacketType(PacketType),
    /// The buffer is shorter than the fixed part of the packet.
    TooShort { len: usize, min: usize },
    /// A length field inside the packet points past the end of the buffer.
    Truncated { len: usize, needed: usize },
    /// The control id byte names no control.
    UnknownControlId(u8),
    /// The device type byte names no device.
    UnknownDeviceType(u8),
}

/// A decoder result seen through the view of its value.
pub open spec fn result_view<T: View>(r: Result<T, ProtocolError>) -> Result<T::V, ProtocolError> {
    match r {
        Ok(v) => Ok(v@),
        Err(e) => Err(e),
    }
}

/// Common header: magic, version, packet type, flags.
#[derive(Debug, Clone, Copy, PartialEq, Eq, Structural)]
pub struct Header {
    pub packet_type: PacketType,
    pub flags: Flags,
}

/// The four header bytes of a packet of type `t` with flags `f`.
pub open spec fn header_bytes(t: PacketType, f: Flags) -> Seq<u8> {
    seq![MAGIC, VERSION, t.spec_code(), f.0]
}

impl Header {
    /// Size of the header in bytes.
    pub const SIZE: usize = 4;

    pub fn new(packet_type: PacketType, flags: Flags) -> (r: Header)
        ensures
            r.packet_type == packet_type,
            r.flags == flags,
    {
        Header { packet_type, flags }
    }

    /// The header bytes of this header.
    pub open spec fn spec_bytes(self) -> Seq<u8> {
        header_bytes(self.packet_type, self.flags)
    }

    /// What decoding the first four bytes of `s` gives.
    pub open spec fn spec_decode(s: Seq<u8>) -> Result<Header, ProtocolError> {
        if s.len() < 4 {
            Err(ProtocolError::HeaderTooShort { len: s.len() as usize })
        } else if s[0] != MAGIC {
            Err(ProtocolError::InvalidMagic(s[0]))
        } else if s[1] != VERSION {
            Err(ProtocolError::UnsupportedVersion(s[1]))
        } else {
            match PacketType::spec_from_code(s[2]) {
                None => Err(ProtocolError::UnknownPacketType(s[2])),
                Some(t) => Ok(Header { packet_type: t, flags: Flags(s[3]) }),
            }
        }
    }

    /// Writes the header into the first four bytes of `buf`; the rest of
    /// `buf` is left as it was.
    pub fn serialize(&self, buf: &mut [u8])
        requires
            old(buf)@.len() >= 4,
        ensures
            final(buf)@ == self.spec_bytes() + old(buf)@.subrange(4, old(buf)@.len() as int),
    {
        buf[0] = MAGIC;
        buf[1] = VERSION;
        buf[2] = self.packet_type.code();
        buf[3] = self.flags.0;
        assert(buf@ =~= self.spec_bytes() + old(buf)@.subrange(4, old(buf)@.len() as int));
    }

    /// Appends the four header bytes to `buf`.
    pub fn append_to(&self, buf: &mut Vec<u8>)
        ensures
            final(buf)@ == old(buf)@ + self.spec_bytes(),
    {
        buf.push(MAGIC);
        buf.push(VERSION);
        buf.push(self.packet_type.code());
        buf.push(self.flags.0);
        assert(buf@ =~= old(buf)@ + self.spec_bytes());
    }

    /// Decodes the header at the start of `buf`.
    pub fn deserialize(buf: &[u8]) -> (r: Result<Header, ProtocolError>)
        ensures
            r == Header::spec_decode(buf@),
    {
        if buf.len() < 4 {
            return Err(ProtocolError::HeaderTooShort { len: buf.len() });
        }
        if buf[0] != MAGIC {
            return Err(ProtocolError::InvalidMagic(buf[0]));
        }
        if buf[1] != VERSION {
            return Err(ProtocolError::UnsupportedVersion(buf[1]));
        }
        match PacketType::from_u8(buf[2]) {
            None => Err(ProtocolError::UnknownPacketType(buf[2])),
            Some(t) => Ok(Header { packet_type: t, flags: Flags(buf[3]) }),
        }
    }

    /// Decoding the bytes of a header, followed by anything, gives that header.
    pub proof fn lemma_roundtrip(self, rest: Seq<u8>)
        ensures
            Header::spec_decode(self.spec_bytes() + rest) == Ok::<Header, ProtocolError>(self),
    {
        let s = self.spec_bytes() + rest;
        assert(s[0] == MAGIC && s[1] == VERSION && s[2] == self.packet_type.spec_code() && s[3]
            == self.flags.0);
        self.packet_type.lemma_code_roundtrip(0);
    }
}

} // verus!
