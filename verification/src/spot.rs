//! DX-cluster spots.

use vstd::prelude::*;
use vstd::utf8::encode_utf8;

use crate::codes::PacketType;
use crate::flags::Flags;
use crate::header::{header_bytes, Header, ProtocolError};
use crate::text::{lemma_text_roundtrip, lossy_text, text_from_range, utf8_bytes};
use crate::wire::{be16, be64, get_be16, get_be64, lemma_be16, lemma_be64, push_be16, push_be64, push_bytes, read_be16, read_be64};

verus! {

/// DX cluster spot: header(4) + callsign_len(1) + callsign + freq_hz(8) +
/// mode_len(1) + mode + spotter_len(1) + spotter + comment_len(1) + comment +
/// age_seconds(2) + expiry_seconds(2).
#[derive(Debug, Clone)]
pub struct SpotPacket {
    pub callsign: String,
    pub frequency_hz: u64,
    pub mode: String,
    pub spotter: String,
    pub comment: String,
    pub age_seconds: u16,
    /// Total spot lifetime in seconds (600 when the sender omits it).
    pub expiry_seconds: u16,
}

/// Mathematical view of a `SpotPacket`.
#[verifier::ext_equal]
pub struct SpotView {
    pub callsign: Seq<char>,
    pub frequency_hz: u64,
    pub mode: Seq<char>,
    pub spotter: Seq<char>,
    pub comment: Seq<char>,
    pub age_seconds: u16,
    pub expiry_seconds: u16,
}

impl View for SpotPacket {
    type V = SpotView;

    open spec fn view(&self) -> SpotView {
        SpotView {
            callsign: self.callsign@,
            frequency_hz: self.frequency_hz,
            mode: self.mode@,
            spotter: self.spotter@,
            comment: self.comment@,
            age_seconds: self.age_seconds,
            expiry_seconds: self.expiry_seconds,
        }
    }
}

/// A length-prefixed text field: one length byte (the UTF-8 length modulo
/// 256) followed by the whole UTF-8 encoding.
pub open spec fn text_field(c: Seq<char>) -> Seq<u8> {
    seq![(encode_utf8(c).len() % 0x100) as u8] + encode_utf8(c)
}

/// Expiry assumed for spots from senders that omit it.
pub const DEFAULT_SPOT_EXPIRY_SECONDS: u16 = 600;

/// A truncation error for a buffer `s` that needed `needed` bytes (the
/// count saturates at `usize::MAX`).
pub open spec fn truncated(s: Seq<u8>, needed: int) -> ProtocolError {
    ProtocolError::Truncated {
        len: s.len() as usize,
        needed: if needed > usize::MAX {
            usize::MAX
        } else {
            needed as usize
        },
    }
}

/// Whether a text field encodes without losing its length.
pub open spec fn text_fits(c: Seq<char>) -> bool {
    encode_utf8(c).len() <= 0xFF
}

impl SpotView {
    /// Wire bytes of the spot.
    pub open spec fn spec_bytes(self) -> Seq<u8> {
        header_bytes(PacketType::Spot, Flags(0)) + text_field(self.callsign) + be64(
            self.frequency_hz,
       ) + text_field(self.mode) + text_field(self.spotter) + text_field(self.comment) + be16(
            self.age_seconds,
       ) + be16(self.expiry_seconds)
    }

    /// What decoding `s` as a spot gives: fields are read in order, each
    /// text field by its length byte, and the first field that runs past the
    /// end of `s` is reported as truncated. The expiry is optional.
    pub open spec fn spec_decode(s: Seq<u8>) -> Result<SpotView, ProtocolError> {
        match Header::spec_decode(s) {
            Err(e) => Err(e),
            Ok(h) => if h.packet_type != PacketType::Spot {
                Err(ProtocolError::UnexpectedPacketType(h.packet_type))
            } else if 4 >= s.len() {
                Err(truncated(s, 5))
            } else if 5 + s[4] > s.len() {
                Err(truncated(s, 5 + s[4]))
            } else {
                let p2 = 5 + s[4];
                if p2 + 8 > s.len() {
                    Err(truncated(s, p2 + 8))
                } else {
                    let p3 = p2 + 8;
                    if p3 >= s.len() {
                        Err(truncated(s, p3 + 1))
                    } else if p3 + 1 + s[p3] > s.len() {
                        Err(truncated(s, p3 + 1 + s[p3]))
                    } else {
                        let p4 = p3 + 1 + s[p3];
                        if p4 >= s.len() {
                            Err(truncated(s, p4 + 1))
                        } else if p4 + 1 + s[p4] > s.len() {
                            Err(truncated(s, p4 + 1 + s[p4]))
                        } else {
                            let p5 = p4 + 1 + s[p4];
                            if p5 >= s.len() {
                                Err(truncated(s, p5 + 1))
                            } else if p5 + 1 + s[p5] > s.len() {
                                Err(truncated(s, p5 + 1 + s[p5]))
                            } else {
                                let p6 = p5 + 1 + s[p5];
                                if p6 + 2 > s.len() {
                                    Err(truncated(s, p6 + 2))
                                } else {
                                    Ok(
                                        SpotView {
                                            callsign: lossy_text(s.subrange(5, p2)),
                                            frequency_hz: read_be64(s, p2),
                                            mode: lossy_text(s.subrange(p3 + 1, p4)),
                                            spotter: lossy_text(s.subrange(p4 + 1, p5)),
                                            comment: lossy_text(s.subrange(p5 + 1, p6)),
                                            age_seconds: read_be16(s, p6),
                                            expiry_seconds: if p6 + 4 <= s.len() {
                                                read_be16(s, p6 + 2)
                                            } else {
                                                DEFAULT_SPOT_EXPIRY_SECONDS
                                            },
                                        },
                                   )
                                }
                            }
                        }
                    }
                }
            },
        }
    }

    /// A spot whose text fields each encode to at most 255 bytes decodes
    /// back from its bytes, whatever follows them.
    #[verifier::rlimit(60)]
    pub proof fn lemma_roundtrip(self, rest: Seq<u8>)
        requires
            text_fits(self.callsign),
            text_fits(self.mode),
            text_fits(self.spotter),
            text_fits(self.comment),
        ensures
            SpotView::spec_decode(self.spec_bytes() + rest) == Ok::<SpotView, ProtocolError>(self),
    {
        let s = self.spec_bytes() + rest;
        let h = Header { packet_type: PacketType::Spot, flags: Flags(0) };
        h.lemma_roundtrip(s.subrange(4, s.len() as int));
        assert(s =~= h.spec_bytes() + s.subrange(4, s.len() as int));
        let c1 = encode_utf8(self.callsign);
        let c2 = encode_utf8(self.mode);
        let c3 = encode_utf8(self.spotter);
        let c4 = encode_utf8(self.comment);
        let p2: int = 5 + c1.len() as int;
        let p3: int = p2 + 8;
        let p4: int = p3 + 1 + c2.len();
        let p5: int = p4 + 1 + c3.len();
        let p6: int = p5 + 1 + c4.len();
        assert(s[4] == c1.len());
        assert(s.subrange(5, p2) =~= c1);
        assert(s.subrange(p2 as int, p3) =~= be64(self.frequency_hz));
        assert(s[p3 as int] == c2.len());
        assert(s.subrange(p3 + 1, p4) =~= c2);
        assert(s[p4 as int] == c3.len());
        assert(s.subrange(p4 + 1, p5) =~= c3);
        assert(s[p5 as int] == c4.len());
        assert(s.subrange(p5 + 1, p6) =~= c4);
        assert(s.subrange(p6 as int, p6 + 2) =~= be16(self.age_seconds));
        assert(s.subrange(p6 + 2, p6 + 4) =~= be16(self.expiry_seconds));
        lemma_be64(self.frequency_hz, s, p2);
        lemma_be16(self.age_seconds, s, p6);
        lemma_be16(self.expiry_seconds, s, p6 + 2);
        lemma_text_roundtrip(self.callsign);
        lemma_text_roundtrip(self.mode);
        lemma_text_roundtrip(self.spotter);
        lemma_text_roundtrip(self.comment);
        let d = SpotView::spec_decode(s);
        assert(d matches Ok(v) && v =~= self);
    }

    /// The bytes of a spot without its last field, the expiry (the form older
    /// senders use), decode to the spot with the default expiry of 600 s.
    #[verifier::rlimit(100)]
    #[verifier::spinoff_prover]
    pub proof fn lemma_older_format(self)
        requires
            text_fits(self.callsign),
            text_fits(self.mode),
            text_fits(self.spotter),
            text_fits(self.comment),
        ensures
            SpotView::spec_decode(self.spec_bytes().subrange(0, self.spec_bytes().len() - 2)) == Ok::<
                SpotView,
                ProtocolError,
            >(SpotView { expiry_seconds: DEFAULT_SPOT_EXPIRY_SECONDS, ..self }),
    {
        let full = self.spec_bytes();
        let body = header_bytes(PacketType::Spot, Flags(0)) + text_field(self.callsign) + be64(
            self.frequency_hz,
        ) + text_field(self.mode) + text_field(self.spotter) + text_field(self.comment);
        lemma_be16(self.age_seconds, full, 0);
        lemma_be16(self.expiry_seconds, full, 0);
        let s = body + be16(self.age_seconds);
        assert(full =~= body + be16(self.age_seconds) + be16(self.expiry_seconds));
        assert(s =~= full.subrange(0, full.len() - 2));
        let h = Header { packet_type: PacketType::Spot, flags: Flags(0) };
        h.lemma_roundtrip(s.subrange(4, s.len() as int));
        assert(s =~= h.spec_bytes() + s.subrange(4, s.len() as int));
        let c1 = encode_utf8(self.callsign);
        let c2 = encode_utf8(self.mode);
        let c3 = encode_utf8(self.spotter);
        let c4 = encode_utf8(self.comment);
        let p2: int = 5 + c1.len() as int;
        let p3: int = p2 + 8;
        let p4: int = p3 + 1 + c2.len();
        let p5: int = p4 + 1 + c3.len();
        let p6: int = p5 + 1 + c4.len();
        lemma_be64(self.frequency_hz, s, p2);
        lemma_be16(self.age_seconds, s, p6);
        assert(body.len() == p6);
        assert(s[4] == c1.len());
        assert(s.subrange(5, p2) =~= c1);
        assert(s.subrange(p2 as int, p3) =~= be64(self.frequency_hz));
        assert(s[p3 as int] == c2.len());
        assert(s.subrange(p3 + 1, p4) =~= c2);
        assert(s[p4 as int] == c3.len());
        assert(s.subrange(p4 + 1, p5) =~= c3);
        assert(s[p5 as int] == c4.len());
        assert(s.subrange(p5 + 1, p6) =~= c4);
        lemma_text_roundtrip(self.callsign);
        lemma_text_roundtrip(self.mode);
        lemma_text_roundtrip(self.spotter);
        lemma_text_roundtrip(self.comment);
        assert(s.subrange(p6 as int, p6 + 2) =~= be16(self.age_seconds));
        let d = SpotView::spec_decode(s);
        assert(d matches Ok(v) && v =~= SpotView { expiry_seconds: DEFAULT_SPOT_EXPIRY_SECONDS, ..self });
    }

    /// The bytes of a spot cut inside its age field (its last three bytes
    /// missing) are refused as truncated, needing the bytes up to the end of
    /// the age.
    #[verifier::rlimit(100)]
    #[verifier::spinoff_prover]
    pub proof fn lemma_age_cut(self)
        requires
            text_fits(self.callsign),
            text_fits(self.mode),
            text_fits(self.spotter),
            text_fits(self.comment),
        ensures
            SpotView::spec_decode(self.spec_bytes().subrange(0, self.spec_bytes().len() - 3)) == Err::<
                SpotView,
                ProtocolError,
            >(truncated(self.spec_bytes().subrange(0, self.spec_bytes().len() - 3), self.spec_bytes().len() - 2)),
    {
        let full = self.spec_bytes();
        let body = header_bytes(PacketType::Spot, Flags(0)) + text_field(self.callsign) + be64(
            self.frequency_hz,
        ) + text_field(self.mode) + text_field(self.spotter) + text_field(self.comment);
        lemma_be16(self.age_seconds, full, 0);
        lemma_be16(self.expiry_seconds, full, 0);
        let s = body + be16(self.age_seconds).take(1);
        assert(full =~= body + be16(self.age_seconds) + be16(self.expiry_seconds));
        assert(s =~= full.subrange(0, full.len() - 3));
        let h = Header { packet_type: PacketType::Spot, flags: Flags(0) };
        h.lemma_roundtrip(s.subrange(4, s.len() as int));
        assert(s =~= h.spec_bytes() + s.subrange(4, s.len() as int));
        let c1 = encode_utf8(self.callsign);
        let c2 = encode_utf8(self.mode);
        let c3 = encode_utf8(self.spotter);
        let c4 = encode_utf8(self.comment);
        let p2: int = 5 + c1.len() as int;
        let p3: int = p2 + 8;
        let p4: int = p3 + 1 + c2.len();
        let p5: int = p4 + 1 + c3.len();
        let p6: int = p5 + 1 + c4.len();
        assert(body.len() == p6);
        assert(s[4] == c1.len());
        assert(s[p3 as int] == c2.len());
        assert(s[p4 as int] == c3.len());
        assert(s[p5 as int] == c4.len());
        let d = SpotView::spec_decode(s);
        assert(d == Err::<SpotView, ProtocolError>(truncated(s, p6 + 2)));
    }
}

/// Appends a length-prefixed text field.
fn push_text_field(buf: &mut Vec<u8>, text: &String)
    ensures
        final(buf)@ == old(buf)@ + text_field(text@),
{
    let bytes = utf8_bytes(text);
    buf.push((bytes.len() % 0x100) as u8);
    push_bytes(buf, bytes);
}

/// Reads a length-prefixed text field starting at `pos`; on success returns
/// the text and the position after it.
fn read_text_field(buf: &[u8], pos: usize) -> (r: Result<(String, usize), ProtocolError>)
    requires
        pos <= buf@.len(),
    ensures
        pos >= buf@.len() ==> r == Err::<(String, usize), ProtocolError>(
            truncated(buf@, pos + 1),
       ),
        pos < buf@.len() && pos + 1 + buf@[pos as int] > buf@.len() ==> r == Err::<
            (String, usize),
            ProtocolError,
        >(truncated(buf@, pos + 1 + buf@[pos as int])),
        pos < buf@.len() && pos + 1 + buf@[pos as int] <= buf@.len() ==> (r matches Ok((t, end))
            && end == pos + 1 + buf@[pos as int] && t@ == lossy_text(
            buf@.subrange(pos + 1, end as int),
       )),
{
    if pos >= buf.len() {
        return Err(ProtocolError::Truncated { len: buf.len(), needed: pos.saturating_add(1) });
    }
    let n = buf[pos] as usize;
    if buf.len() - pos - 1 < n {
        return Err(
            ProtocolError::Truncated { len: buf.len(), needed: pos.saturating_add(1).saturating_add(n) },
        );
    }
    let end = pos + 1 + n;
    Ok((text_from_range(buf, pos + 1, end), end))
}

impl SpotPacket {
    /// Appends the spot to `buf`.
    pub fn serialize(&self, buf: &mut Vec<u8>)
        ensures
            final(buf)@ == old(buf)@ + self@.spec_bytes(),
    {
        Header::new(PacketType::Spot, Flags::none()).append_to(buf);
        push_text_field(buf, &self.callsign);
        push_be64(buf, self.frequency_hz);
        push_text_field(buf, &self.mode);
        push_text_field(buf, &self.spotter);
        push_text_field(buf, &self.comment);
        push_be16(buf, self.age_seconds);
        push_be16(buf, self.expiry_seconds);
        assert(buf@ =~= old(buf)@ + self@.spec_bytes());
    }

    pub fn deserialize(buf: &[u8]) -> (r: Result<SpotPacket, ProtocolError>)
        ensures
            match r {
                Ok(p) => SpotView::spec_decode(buf@) == Ok::<SpotView, ProtocolError>(p@),
                Err(e) => SpotView::spec_decode(buf@) == Err::<SpotView, ProtocolError>(e),
            },
    {
        let header = Header::deserialize(buf)?;
        if !matches!(header.packet_type, PacketType::Spot) {
            return Err(ProtocolError::UnexpectedPacketType(header.packet_type));
        }
        let (callsign, pos) = read_text_field(buf, 4)?;
        if buf.len() - pos < 8 {
            return Err(ProtocolError::Truncated { len: buf.len(), needed: pos.saturating_add(8) });
        }
        let frequency_hz = get_be64(buf, pos);
        let (mode, pos) = read_text_field(buf, pos + 8)?;
        let (spotter, pos) = read_text_field(buf, pos)?;
        let (comment, pos) = read_text_field(buf, pos)?;
        if buf.len() - pos < 2 {
            return Err(ProtocolError::Truncated { len: buf.len(), needed: pos.saturating_add(2) });
        }
        let age_seconds = get_be16(buf, pos);
        let expiry_seconds = if buf.len() - pos >= 4 {
            get_be16(buf, pos + 2)
        } else {
            DEFAULT_SPOT_EXPIRY_SECONDS
        };
        let r = SpotPacket {
            callsign,
            frequency_hz,
            mode,
            spotter,
            comment,
            age_seconds,
            expiry_seconds,
        };
        assert(r@ =~= SpotView::spec_decode(buf@).unwrap());
        Ok(r)
    }
}

} // verus!
