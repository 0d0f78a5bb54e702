//! Spectrum rows for the spectrum and waterfall displays.

use vstd::prelude::*;

use crate::codes::PacketType;
use crate::flags::Flags;
use crate::header::{header_bytes, Header, ProtocolError};
use crate::wire::{be16, be32, get_be16, get_be32, lemma_be16, lemma_be32, push_be16, push_be32, read_be16, read_be32};

verus! {

/// Spectrum packet: header(4) + sequence(2) + num_bins(2) +
/// center_freq_hz(4) + span_hz(4) + ref_level(1) + db_per_unit(1) + bins.
/// `db_per_unit` gives the bin width on the wire: 2 = u16 bins, anything
/// else = u8 bins (the high byte of each u16 bin, widened x257 on receive).
#[derive(Debug, Clone)]
pub struct SpectrumPacket {
    pub sequence: u16,
    pub num_bins: u16,
    pub center_freq_hz: u32,
    pub span_hz: u32,
    pub ref_level: i8,
    pub db_per_unit: u8,
    pub bins: Vec<u16>,
}

/// Mathematical view of a `SpectrumPacket`.
#[verifier::ext_equal]
pub struct SpectrumView {
    pub sequence: u16,
    pub num_bins: u16,
    pub center_freq_hz: u32,
    pub span_hz: u32,
    pub ref_level: i8,
    pub db_per_unit: u8,
    pub bins: Seq<u16>,
}

impl View for SpectrumPacket {
    type V = SpectrumView;

    open spec fn view(&self) -> SpectrumView {
        SpectrumView {
            sequence: self.sequence,
            num_bins: self.num_bins,
            center_freq_hz: self.center_freq_hz,
            span_hz: self.span_hz,
            ref_level: self.ref_level,
            db_per_unit: self.db_per_unit,
            bins: self.bins@,
        }
    }
}

/// The packet types that carry a spectrum row.
pub open spec fn is_spectrum_type(t: PacketType) -> bool {
    t == PacketType::Spectrum || t == PacketType::FullSpectrum || t == PacketType::SpectrumRx2
        || t == PacketType::FullSpectrumRx2
}

/// Bins as u16 big-endian pairs.
pub open spec fn wide_bin_bytes(bins: Seq<u16>) -> Seq<u8>
    decreases bins.len(),
{
    if bins.len() == 0 {
        seq![]
    } else {
        wide_bin_bytes(bins.drop_last()) + be16(bins.last())
    }
}

/// Bins as single bytes: the high byte of each bin.
pub open spec fn narrow_bin_bytes(bins: Seq<u16>) -> Seq<u8> {
    Seq::new(bins.len(), |i: int| (bins[i] / 0x100) as u8)
}

proof fn lemma_wide_bin_bytes(bins: Seq<u16>)
    ensures
        wide_bin_bytes(bins).len() == 2 * bins.len(),
        forall|i: int|
            0 <= i < bins.len() ==> #[trigger] read_be16(wide_bin_bytes(bins), 2 * i) == bins[i],
    decreases bins.len(),
{
    if bins.len() > 0 {
        let init = bins.drop_last();
        lemma_wide_bin_bytes(init);
        let w = wide_bin_bytes(bins);
        lemma_be16(bins.last(), w, 0);
        assert forall|i: int| 0 <= i < bins.len() implies #[trigger] read_be16(w, 2 * i)
            == bins[i] by {
            if i < init.len() {
                assert(read_be16(wide_bin_bytes(init), 2 * i) == init[i]);
                assert(w[2 * i] == wide_bin_bytes(init)[2 * i]);
                assert(w[2 * i + 1] == wide_bin_bytes(init)[2 * i + 1]);
            } else {
                assert(w[2 * i] == be16(bins.last())[0]);
                assert(w[2 * i + 1] == be16(bins.last())[1]);
            }
        }
    }
}

impl SpectrumView {
    /// Whether bins travel as u16 values.
    pub open spec fn wide(self) -> bool {
        self.db_per_unit == 2
    }

    /// Wire bytes of the packet sent as type `t`; the `num_bins` field is
    /// written as given and every bin of `bins` follows.
    pub open spec fn spec_bytes(self, t: PacketType) -> Seq<u8> {
        header_bytes(t, Flags(0)) + be16(self.sequence) + be16(self.num_bins) + be32(
            self.center_freq_hz,
        ) + be32(self.span_hz) + seq![self.ref_level as u8, self.db_per_unit] + if self.wide() {
            wide_bin_bytes(self.bins)
        } else {
            narrow_bin_bytes(self.bins)
        }
    }

    /// What decoding `s` as a spectrum packet gives.
    pub open spec fn spec_decode(s: Seq<u8>) -> Result<SpectrumView, ProtocolError> {
        match Header::spec_decode(s) {
            Err(e) => Err(e),
            Ok(h) => if !is_spectrum_type(h.packet_type) {
                Err(ProtocolError::UnexpectedPacketType(h.packet_type))
            } else if s.len() < 18 {
                Err(ProtocolError::TooShort { len: s.len() as usize, min: 18 })
            } else {
                let n = read_be16(s, 6);
                let wide = s[17] == 2;
                let needed = if wide {
                    18 + 2 * n
                } else {
                    18 + n
                };
                if s.len() < needed {
                    Err(ProtocolError::Truncated { len: s.len() as usize, needed: needed as usize })
                } else {
                    Ok(
                        SpectrumView {
                            sequence: read_be16(s, 4),
                            num_bins: n,
                            center_freq_hz: read_be32(s, 8),
                            span_hz: read_be32(s, 12),
                            ref_level: s[16] as i8,
                            db_per_unit: s[17],
                            bins: if wide {
                                Seq::new(n as nat, |i: int| read_be16(s, 18 + 2 * i))
                            } else {
                                Seq::new(n as nat, |i: int| (s[18 + i] * 257) as u16)
                            },
                        },
                    )
                }
            },
        }
    }

    /// A row whose `num_bins` field matches its bins decodes back from its
    /// bytes: exactly when the bins travel as u16, and with every bin reduced
    /// to its high byte times 257 otherwise.
    pub proof fn lemma_roundtrip(self, t: PacketType, rest: Seq<u8>)
        requires
            is_spectrum_type(t),
            self.num_bins == self.bins.len(),
        ensures
            self.wide() ==> SpectrumView::spec_decode(self.spec_bytes(t) + rest) == Ok::<
                SpectrumView,
                ProtocolError,
            >(self),
            !self.wide() ==> SpectrumView::spec_decode(self.spec_bytes(t) + rest) == Ok::<
                SpectrumView,
                ProtocolError,
            >(
                SpectrumView {
                    bins: Seq::new(
                        self.bins.len(),
                        |i: int| ((self.bins[i] / 0x100) * 257) as u16,
                    ),
                    ..self
                },
            ),
    {
        let s = self.spec_bytes(t) + rest;
        let h = Header { packet_type: t, flags: Flags(0) };
        h.lemma_roundtrip(s.subrange(4, s.len() as int));
        assert(s =~= h.spec_bytes() + s.subrange(4, s.len() as int));
        lemma_be16(self.sequence, s, 4);
        lemma_be16(self.num_bins, s, 6);
        lemma_be32(self.center_freq_hz, s, 8);
        lemma_be32(self.span_hz, s, 12);
        assert(s.subrange(4, 6) =~= be16(self.sequence));
        assert(s.subrange(6, 8) =~= be16(self.num_bins));
        assert(s.subrange(8, 12) =~= be32(self.center_freq_hz));
        assert(s.subrange(12, 16) =~= be32(self.span_hz));
        let x = self.ref_level;
        assert((x as u8) as i8 == x) by (bit_vector);
        assert(s[16] == x as u8);
        assert(s[17] == self.db_per_unit);
        let pre = s.subrange(0, 18);
        let d = SpectrumView::spec_decode(s);
        if self.wide() {
            lemma_wide_bin_bytes(self.bins);
            let w = wide_bin_bytes(self.bins);
            assert(s =~= pre + w + rest);
            assert forall|i: int| 0 <= i < self.bins.len() implies read_be16(s, 18 + 2 * i)
                == self.bins[i] by {
                assert(read_be16(w, 2 * i) == self.bins[i]);
                assert(s[18 + 2 * i] == w[2 * i]);
                assert(s[18 + 2 * i + 1] == w[2 * i + 1]);
            }
            assert(d matches Ok(v) && v =~= self);
        } else {
            let nb = narrow_bin_bytes(self.bins);
            assert(s =~= pre + nb + rest);
            assert forall|i: int| 0 <= i < self.bins.len() implies s[18 + i] == (self.bins[i]
                / 0x100) as u8 by {
                assert(s[18 + i] == nb[i]);
            }
            let expect = SpectrumView {
                bins: Seq::new(self.bins.len(), |i: int| ((self.bins[i] / 0x100) * 257) as u16),
                ..self
            };
            assert(d matches Ok(v) && v =~= expect);
        }
    }
}

impl SpectrumPacket {
    /// Size of the fixed part.
    pub const HEADER_SIZE: usize = 18;

    pub fn serialize(&self, buf: &mut Vec<u8>)
        ensures
            final(buf)@ == old(buf)@ + self@.spec_bytes(PacketType::Spectrum),
    {
        self.serialize_as_type(buf, PacketType::Spectrum);
    }

    /// Appends the row, tagged as `ptype`, to `buf`.
    pub fn serialize_as_type(&self, buf: &mut Vec<u8>, ptype: PacketType)
        ensures
            final(buf)@ == old(buf)@ + self@.spec_bytes(ptype),
    {
        Header::new(ptype, Flags::none()).append_to(buf);
        push_be16(buf, self.sequence);
        push_be16(buf, self.num_bins);
        push_be32(buf, self.center_freq_hz);
        push_be32(buf, self.span_hz);
        buf.push(self.ref_level as u8);
        buf.push(self.db_per_unit);
        let ghost start = buf@;
        let n = self.bins.len();
        if self.db_per_unit == 2 {
            for i in 0..n
                invariant
                    n == self.bins@.len(),
                    buf@ == start + wide_bin_bytes(self.bins@.subrange(0, i as int)),
            {
                push_be16(buf, self.bins[i]);
                proof {
                    let sub = self.bins@.subrange(0, i + 1);
                    assert(sub.drop_last() =~= self.bins@.subrange(0, i as int));
                }
            }
            assert(self.bins@.subrange(0, n as int) =~= self.bins@);
        } else {
            for i in 0..n
                invariant
                    n == self.bins@.len(),
                    buf@ == start + narrow_bin_bytes(self.bins@.subrange(0, i as int)),
            {
                let ghost before = buf@;
                buf.push((self.bins[i] / 0x100) as u8);
                proof {
                    assert(narrow_bin_bytes(self.bins@.subrange(0, i + 1)) =~= narrow_bin_bytes(
                        self.bins@.subrange(0, i as int),
                    ).push((self.bins@[i as int] / 0x100) as u8));
                }
            }
            assert(self.bins@.subrange(0, n as int) =~= self.bins@);
        }
        assert(buf@ =~= old(buf)@ + self@.spec_bytes(ptype));
    }

    pub fn deserialize(buf: &[u8]) -> (r: Result<SpectrumPacket, ProtocolError>)
        ensures
            match r {
                Ok(p) => SpectrumView::spec_decode(buf@) == Ok::<SpectrumView, ProtocolError>(p@),
                Err(e) => SpectrumView::spec_decode(buf@) == Err::<SpectrumView, ProtocolError>(e),
            },
    {
        let header = Header::deserialize(buf)?;
        if !matches!(
            header.packet_type,
            PacketType::Spectrum | PacketType::FullSpectrum | PacketType::SpectrumRx2
                | PacketType::FullSpectrumRx2
        ) {
            return Err(ProtocolError::UnexpectedPacketType(header.packet_type));
        }
        if buf.len() < 18 {
            return Err(ProtocolError::TooShort { len: buf.len(), min: 18 });
        }
        let sequence = get_be16(buf, 4);
        let num_bins = get_be16(buf, 6);
        let center_freq_hz = get_be32(buf, 8);
        let span_hz = get_be32(buf, 12);
        let ref_level = buf[16] as i8;
        let db_per_unit = buf[17];
        let n = num_bins as usize;
        let expected_len: usize = if db_per_unit == 2 {
            18 + n * 2
        } else {
            18 + n
        };
        if buf.len() < expected_len {
            return Err(ProtocolError::Truncated { len: buf.len(), needed: expected_len });
        }
        let mut bins: Vec<u16> = Vec::with_capacity(n);
        let ghost s = buf@;
        if db_per_unit == 2 {
            for i in 0..n
                invariant
                    s == buf@,
                    expected_len == 18 + n * 2 <= buf.len(),
                    bins@ =~= Seq::new(i as nat, |k: int| read_be16(s, 18 + 2 * k)),
            {
                bins.push(get_be16(buf, 18 + i * 2));
            }
        } else {
            for i in 0..n
                invariant
                    s == buf@,
                    expected_len == 18 + n <= buf.len(),
                    bins@ =~= Seq::new(i as nat, |k: int| (s[18 + k] * 257) as u16),
            {
                let v = buf[18 + i] as u16;
                bins.push(v * 257);
            }
        }
        let r = SpectrumPacket {
            sequence,
            num_bins,
            center_freq_hz,
            span_hz,
            ref_level,
            db_per_unit,
            bins,
        };
        assert(r@ =~= SpectrumView::spec_decode(buf@).unwrap());
        Ok(r)
    }
}

} // verus!
