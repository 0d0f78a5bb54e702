//! Second-radio state and the TX profile list.

use vstd::prelude::*;
use vstd::utf8::encode_utf8;

use crate::codes::PacketType;
use crate::equipment::bool_byte;
use crate::flags::Flags;
use crate::header::{header_bytes, Header, ProtocolError};
use crate::text::{lemma_text_roundtrip, lossy_text, text_from_range, utf8_bytes};
use crate::wire::{be16, be64, copy_into, get_be16, get_be64, lemma_be16, lemma_be64, push_be16, push_be64, push_bytes, read_be16, read_be64};

verus! {

/// Yaesu radio state (server to client): header(4) + freq_a(8) + freq_b(8) +
/// mode(1) + smeter(2) + tx(1) + power_on(1) + af_gain(1) + tx_power(1) +
/// vfo_select(1) + memory_channel(2) + squelch(1) + rf_gain(1) +
/// mic_gain(1) + split(1) + scan(1) = 35 bytes.
pub struct YaesuStatePacket {
    pub freq_a: u64,
    pub freq_b: u64,
    pub mode: u8,
    pub smeter: u16,
    pub tx_active: bool,
    pub power_on: bool,
    pub af_gain: u8,
    pub tx_power: u8,
    /// 0 = VFO, 1 = memory, 2 = memory tune.
    pub vfo_select: u8,
    pub memory_channel: u16,
    pub squelch: u8,
    pub rf_gain: u8,
    pub mic_gain: u8,
    pub split: bool,
    pub scan: bool,
}

impl View for YaesuStatePacket {
    type V = YaesuStatePacket;

    open spec fn view(&self) -> YaesuStatePacket {
        *self
    }
}

/// The first and last bytes of a 64-bit value written big-endian: its
/// top byte and its bottom byte.
pub proof fn lemma_be64_ends(v: u64)
    ensures
        be64(v).len() == 8,
        be64(v)[0] == v / 0x100_0000_0000_0000,
        be64(v)[7] == v % 256,
{
    lemma_be64(v, be64(v), 0);
    let hi = v / 0x1_0000_0000;
    vstd::arithmetic::div_mod::lemma_div_denominator(v as int, 0x1_0000_0000, 0x100_0000);
    vstd::arithmetic::div_mod::lemma_mod_mod(v as int, 256, 0x100_0000);
    assert(256 * 0x100_0000 == 0x1_0000_0000);
    assert(0x1_0000_0000 * 0x100_0000 == 0x100_0000_0000_0000);
}

impl YaesuStatePacket {
    /// Full size.
    pub const SIZE: usize = 35;

    /// Wire bytes of the state.
    pub open spec fn spec_bytes(self) -> Seq<u8> {
        header_bytes(PacketType::YaesuState, Flags(0)) + be64(self.freq_a) + be64(self.freq_b)
            + seq![self.mode] + be16(self.smeter) + seq![
            bool_byte(self.tx_active),
            bool_byte(self.power_on),
            self.af_gain,
            self.tx_power,
            self.vfo_select,
        ] + be16(self.memory_channel) + seq![
            self.squelch,
            self.rf_gain,
            self.mic_gain,
            bool_byte(self.split),
            bool_byte(self.scan),
        ]
    }

    /// What decoding `s` as a state packet gives. The header is not
    /// inspected; 34 bytes are enough, the scan flag defaulting to off.
    pub open spec fn spec_decode(s: Seq<u8>) -> Result<YaesuStatePacket, ProtocolError> {
        if s.len() < 34 {
            Err(ProtocolError::TooShort { len: s.len() as usize, min: 34 })
        } else {
            Ok(
                YaesuStatePacket {
                    freq_a: read_be64(s, 4),
                    freq_b: read_be64(s, 12),
                    mode: s[20],
                    smeter: read_be16(s, 21),
                    tx_active: s[23] != 0,
                    power_on: s[24] != 0,
                    af_gain: s[25],
                    tx_power: s[26],
                    vfo_select: s[27],
                    memory_channel: read_be16(s, 28),
                    squelch: s[30],
                    rf_gain: s[31],
                    mic_gain: s[32],
                    split: s[33] != 0,
                    scan: if s.len() > 34 {
                        s[34] != 0
                    } else {
                        false
                    },
                },
            )
        }
    }

    /// The state decodes back from its bytes; from its first 34 bytes it
    /// decodes back with the scan flag off.
    #[verifier::rlimit(40)]
    #[verifier::spinoff_prover]
    pub proof fn lemma_roundtrip(self)
        ensures
            YaesuStatePacket::spec_decode(self.spec_bytes()) == Ok::<
                YaesuStatePacket,
                ProtocolError,
            >(self),
            YaesuStatePacket::spec_decode(self.spec_bytes().subrange(0, 34)) == Ok::<
                YaesuStatePacket,
                ProtocolError,
            >(YaesuStatePacket { scan: false, ..self }),
    {
        let s = self.spec_bytes();
        lemma_be64(self.freq_a, s, 4);
        lemma_be64(self.freq_b, s, 12);
        lemma_be16(self.smeter, s, 21);
        lemma_be16(self.memory_channel, s, 28);
        assert(s.subrange(4, 12) =~= be64(self.freq_a));
        assert(s.subrange(12, 20) =~= be64(self.freq_b));
        assert(s.subrange(21, 23) =~= be16(self.smeter));
        assert(s.subrange(28, 30) =~= be16(self.memory_channel));
        let t = s.subrange(0, 34);
        assert(t.subrange(4, 12) =~= s.subrange(4, 12));
        assert(t.subrange(12, 20) =~= s.subrange(12, 20));
        assert(t.subrange(21, 23) =~= s.subrange(21, 23));
        assert(t.subrange(28, 30) =~= s.subrange(28, 30));
        lemma_be64(self.freq_a, t, 4);
        lemma_be64(self.freq_b, t, 12);
        lemma_be16(self.smeter, t, 21);
        lemma_be16(self.memory_channel, t, 28);
    }

    /// The state on the wire: 35 bytes in a fixed layout, after the 4-byte
    /// header: VFO A's frequency (bytes 4 to 11) and VFO B's (12 to 19)
    /// big-endian, the mode at 20, the S-meter big-endian at 21 and 22, the
    /// transmit and power flags at 23 and 24, AF gain at 25, TX power at
    /// 26, the VFO selection at 27, the memory channel big-endian at 28 and
    /// 29, squelch at 30, RF gain at 31, mic gain at 32, and the split and
    /// scan flags at 33 and 34 (flags as 1 or 0). The decoder reads every
    /// field from the same place.
    #[verifier::rlimit(40)]
    #[verifier::spinoff_prover]
    pub proof fn lemma_wire_layout(self, s: Seq<u8>)
        ensures
            self.spec_bytes().len() == 35,
            self.spec_bytes()[4] == self.freq_a / 0x100_0000_0000_0000,
            self.spec_bytes()[11] == self.freq_a % 256,
            self.spec_bytes()[12] == self.freq_b / 0x100_0000_0000_0000,
            self.spec_bytes()[19] == self.freq_b % 256,
            self.spec_bytes()[20] == self.mode,
            self.spec_bytes()[21] == self.smeter / 256,
            self.spec_bytes()[22] == self.smeter % 256,
            self.spec_bytes()[23] == (if self.tx_active { 1u8 } else { 0u8 }),
            self.spec_bytes()[24] == (if self.power_on { 1u8 } else { 0u8 }),
            self.spec_bytes()[25] == self.af_gain,
            self.spec_bytes()[26] == self.tx_power,
            self.spec_bytes()[27] == self.vfo_select,
            self.spec_bytes()[28] == self.memory_channel / 256,
            self.spec_bytes()[29] == self.memory_channel % 256,
            self.spec_bytes()[30] == self.squelch,
            self.spec_bytes()[31] == self.rf_gain,
            self.spec_bytes()[32] == self.mic_gain,
            self.spec_bytes()[33] == (if self.split { 1u8 } else { 0u8 }),
            self.spec_bytes()[34] == (if self.scan { 1u8 } else { 0u8 }),
            YaesuStatePacket::spec_decode(s) matches Ok(q) ==> {
                &&& q.mode == s[20]
                &&& q.smeter == s[21] * 256 + s[22]
                &&& q.tx_active == (s[23] != 0)
                &&& q.power_on == (s[24] != 0)
                &&& q.af_gain == s[25]
                &&& q.tx_power == s[26]
                &&& q.vfo_select == s[27]
                &&& q.memory_channel == s[28] * 256 + s[29]
                &&& q.squelch == s[30]
                &&& q.rf_gain == s[31]
                &&& q.mic_gain == s[32]
                &&& q.split == (s[33] != 0)
            },
    {
        let b = self.spec_bytes();
        lemma_be64_ends(self.freq_a);
        lemma_be64_ends(self.freq_b);
        lemma_be16(self.smeter, b, 0);
        let h = header_bytes(PacketType::YaesuState, Flags(0));
        let fa = be64(self.freq_a);
        let fb = be64(self.freq_b);
        assert(b[4] == fa[0] && b[11] == fa[7]);
        assert(b[12] == fb[0] && b[19] == fb[7]);
    }

    pub fn serialize(&self, buf: &mut [u8; 35])
        ensures
            final(buf)@ == self.spec_bytes(),
    {
        let mut v: Vec<u8> = Vec::with_capacity(35);
        Header::new(PacketType::YaesuState, Flags::none()).append_to(&mut v);
        push_be64(&mut v, self.freq_a);
        push_be64(&mut v, self.freq_b);
        v.push(self.mode);
        push_be16(&mut v, self.smeter);
        v.push(byte_of(self.tx_active));
        v.push(byte_of(self.power_on));
        v.push(self.af_gain);
        v.push(self.tx_power);
        v.push(self.vfo_select);
        push_be16(&mut v, self.memory_channel);
        v.push(self.squelch);
        v.push(self.rf_gain);
        v.push(self.mic_gain);
        v.push(byte_of(self.split));
        v.push(byte_of(self.scan));
        proof {
            lemma_be64(self.freq_a, v@, 0);
            lemma_be16(self.smeter, v@, 0);
            assert(v@ =~= self.spec_bytes());
        }
        copy_into(buf, &v);
    }

    pub fn deserialize(buf: &[u8]) -> (r: Result<YaesuStatePacket, ProtocolError>)
        ensures
            r == YaesuStatePacket::spec_decode(buf@),
    {
        if buf.len() < 34 {
            return Err(ProtocolError::TooShort { len: buf.len(), min: 34 });
        }
        Ok(
            YaesuStatePacket {
                freq_a: get_be64(buf, 4),
                freq_b: get_be64(buf, 12),
                mode: buf[20],
                smeter: get_be16(buf, 21),
                tx_active: buf[23] != 0,
                power_on: buf[24] != 0,
                af_gain: buf[25],
                tx_power: buf[26],
                vfo_select: buf[27],
                memory_channel: get_be16(buf, 28),
                squelch: buf[30],
                rf_gain: buf[31],
                mic_gain: buf[32],
                split: buf[33] != 0,
                scan: if buf.len() > 34 {
                    buf[34] != 0
                } else {
                    false
                },
            },
        )
    }
}

/// A boolean as a wire byte.
fn byte_of(b: bool) -> (r: u8)
    ensures
        r == bool_byte(b),
{
    if b {
        1
    } else {
        0
    }
}

/// TX profile list (server to client): header(4) + count(1) + active(1),
/// then per name: len(1) + UTF-8 bytes.
pub struct TxProfilesPacket {
    pub names: Vec<String>,
    pub active: u8,
}

/// Mathematical view of a `TxProfilesPacket`.
#[verifier::ext_equal]
pub struct TxProfilesView {
    pub names: Seq<Seq<char>>,
    pub active: u8,
}

impl View for TxProfilesPacket {
    type V = TxProfilesView;

    open spec fn view(&self) -> TxProfilesView {
        TxProfilesView { names: self.names.deep_view(), active: self.active }
    }
}

/// The smaller of `a` and 255.
pub open spec fn cap255(a: int) -> int {
    if a > 255 {
        255
    } else {
        a
    }
}

/// Wire bytes of one profile name: at most 255 UTF-8 bytes, prefixed by
/// their count.
pub open spec fn profile_entry(c: Seq<char>) -> Seq<u8> {
    seq![cap255(encode_utf8(c).len() as int) as u8] + encode_utf8(c).take(
        cap255(encode_utf8(c).len() as int),
    )
}

/// Wire bytes of a list of profile names, in order.
pub open spec fn profile_entries(ns: Seq<Seq<char>>) -> Seq<u8>
    decreases ns.len(),
{
    if ns.len() == 0 {
        seq![]
    } else {
        profile_entries(ns.drop_last()) + profile_entry(ns.last())
    }
}

/// The names read from `s` starting at `pos`, reading at most `remaining`
/// entries and stopping at the first entry that does not fit.
pub open spec fn decode_profiles(s: Seq<u8>, pos: int, remaining: nat) -> Seq<Seq<char>>
    decreases remaining,
{
    if remaining == 0 || pos >= s.len() {
        seq![]
    } else if pos + 1 + s[pos] > s.len() {
        seq![]
    } else {
        seq![lossy_text(s.subrange(pos + 1, pos + 1 + s[pos]))] + decode_profiles(
            s,
            pos + 1 + s[pos],
            (remaining - 1) as nat,
        )
    }
}

/// Whether every name encodes to at most 255 bytes.
pub open spec fn profiles_fit(ns: Seq<Seq<char>>) -> bool {
    forall|i: int| 0 <= i < ns.len() ==> encode_utf8(#[trigger] ns[i]).len() <= 255
}

proof fn lemma_profile_entries_first(ns: Seq<Seq<char>>)
    requires
        ns.len() > 0,
    ensures
        profile_entries(ns) =~= profile_entry(ns[0]) + profile_entries(ns.drop_first()),
    decreases ns.len(),
{
    if ns.len() == 1 {
        assert(ns.drop_last() =~= seq![]);
        assert(ns.drop_first() =~= seq![]);
    } else {
        lemma_profile_entries_first(ns.drop_last());
        assert(ns.drop_last().drop_first() =~= ns.drop_first().drop_last());
        assert(ns.drop_first().last() == ns.last());
        assert(ns.drop_last()[0] == ns[0]);
    }
}

proof fn lemma_decode_profiles(ns: Seq<Seq<char>>, pre: Seq<u8>, rest: Seq<u8>)
    requires
        profiles_fit(ns),
    ensures
        decode_profiles(pre + profile_entries(ns) + rest, pre.len() as int, ns.len()) =~= ns,
    decreases ns.len(),
{
    if ns.len() > 0 {
        lemma_profile_entries_first(ns);
        let c = ns[0];
        let b = encode_utf8(c);
        assert(b.len() <= 255);
        assert(b.take(b.len() as int) =~= b);
        let s = pre + profile_entries(ns) + rest;
        let p = pre.len() as int;
        let pre2 = pre + profile_entry(c);
        assert(s =~= pre2 + profile_entries(ns.drop_first()) + rest);
        assert(s[p] == b.len());
        assert(s.subrange(p + 1, p + 1 + b.len()) =~= b);
        lemma_text_roundtrip(c);
        assert(profiles_fit(ns.drop_first())) by {
            assert forall|i: int| 0 <= i < ns.drop_first().len() implies encode_utf8(
                #[trigger] ns.drop_first()[i],
            ).len() <= 255 by {
                assert(ns.drop_first()[i] == ns[i + 1]);
            }
        }
        lemma_decode_profiles(ns.drop_first(), pre2, rest);
        assert(ns =~= seq![c] + ns.drop_first());
    }
}

/// How many leading names have their entries wholly within `room` bytes.
pub open spec fn fitting_profiles(ns: Seq<Seq<char>>, room: int) -> nat
    decreases ns.len(),
{
    if ns.len() == 0 || 1 + encode_utf8(ns[0]).len() > room {
        0
    } else {
        1 + fitting_profiles(ns.drop_first(), room - 1 - encode_utf8(ns[0]).len())
    }
}

proof fn lemma_decode_profiles_cut(ns: Seq<Seq<char>>, pre: Seq<u8>, len: int)
    requires
        profiles_fit(ns),
        pre.len() <= len <= pre.len() + profile_entries(ns).len(),
    ensures
        fitting_profiles(ns, len - pre.len()) <= ns.len(),
        decode_profiles((pre + profile_entries(ns)).subrange(0, len), pre.len() as int, ns.len())
            =~= ns.take(fitting_profiles(ns, len - pre.len()) as int),
    decreases ns.len(),
{
    let p = pre.len() as int;
    let full = pre + profile_entries(ns);
    let s = full.subrange(0, len);
    if ns.len() == 0 {
        assert(ns.take(0) =~= Seq::<Seq<char>>::empty());
    } else {
        lemma_profile_entries_first(ns);
        let c = ns[0];
        let b = encode_utf8(c);
        assert(b.len() <= 255);
        assert(b.take(b.len() as int) =~= b);
        let pre2 = pre + profile_entry(c);
        assert(full =~= pre2 + profile_entries(ns.drop_first()));
        assert(profile_entry(c).len() == 1 + b.len());
        if p >= len {
            assert(ns.take(0) =~= Seq::<Seq<char>>::empty());
        } else {
            assert(s[p] == b.len());
            if p + 1 + b.len() > len {
                assert(ns.take(0) =~= Seq::<Seq<char>>::empty());
            } else {
                assert(s.subrange(p + 1, p + 1 + b.len()) =~= b);
                lemma_text_roundtrip(c);
                assert(profiles_fit(ns.drop_first())) by {
                    assert forall|i: int| 0 <= i < ns.drop_first().len() implies encode_utf8(
                        #[trigger] ns.drop_first()[i],
                    ).len() <= 255 by {
                        assert(ns.drop_first()[i] == ns[i + 1]);
                    }
                }
                lemma_decode_profiles_cut(ns.drop_first(), pre2, len);
                let k = fitting_profiles(ns.drop_first(), len - pre2.len());
                assert(ns.take(k + 1 as int) =~= seq![c] + ns.drop_first().take(k as int));
            }
        }
    }
}

impl TxProfilesView {
    /// Wire bytes of the list: at most the first 255 names are sent.
    pub open spec fn spec_bytes(self) -> Seq<u8> {
        header_bytes(PacketType::TxProfiles, Flags(0)) + seq![
            cap255(self.names.len() as int) as u8,
            self.active,
        ] + profile_entries(self.names.take(cap255(self.names.len() as int)))
    }

    /// What decoding `s` as a profile list gives. Names that do not fit the
    /// buffer end the list without an error.
    pub open spec fn spec_decode(s: Seq<u8>) -> Result<TxProfilesView, ProtocolError> {
        match Header::spec_decode(s) {
            Err(e) => Err(e),
            Ok(h) => if h.packet_type != PacketType::TxProfiles {
                Err(ProtocolError::UnexpectedPacketType(h.packet_type))
            } else if s.len() < 6 {
                Err(ProtocolError::TooShort { len: s.len() as usize, min: 6 })
            } else {
                Ok(TxProfilesView { names: decode_profiles(s, 6, s[4] as nat), active: s[5] })
            },
        }
    }

    /// A list of at most 255 names, each encoding to at most 255 bytes,
    /// decodes back from its bytes, whatever follows them.
    pub proof fn lemma_roundtrip(self, rest: Seq<u8>)
        requires
            self.names.len() <= 255,
            profiles_fit(self.names),
        ensures
            TxProfilesView::spec_decode(self.spec_bytes() + rest) == Ok::<
                TxProfilesView,
                ProtocolError,
            >(self),
    {
        let s = self.spec_bytes() + rest;
        let h = Header { packet_type: PacketType::TxProfiles, flags: Flags(0) };
        h.lemma_roundtrip(s.subrange(4, s.len() as int));
        assert(s =~= h.spec_bytes() + s.subrange(4, s.len() as int));
        assert(self.names.take(self.names.len() as int) =~= self.names);
        let pre = header_bytes(PacketType::TxProfiles, Flags(0)) + seq![
            self.names.len() as u8,
            self.active,
        ];
        assert(s =~= pre + profile_entries(self.names) + rest);
        lemma_decode_profiles(self.names, pre, rest);
        let d = TxProfilesView::spec_decode(s);
        assert(d matches Ok(v) && v =~= self);
    }

    /// The bytes of a list of at most 255 names, each encoding to at most
    /// 255 bytes, cut anywhere after the 6-byte fixed part decode without an
    /// error: the active index as sent, and the longest run of leading names
    /// whose entries lie wholly within the cut.
    pub proof fn lemma_truncated(self, len: int)
        requires
            self.names.len() <= 255,
            profiles_fit(self.names),
            6 <= len <= self.spec_bytes().len(),
        ensures
            TxProfilesView::spec_decode(self.spec_bytes().subrange(0, len)) == Ok::<
                TxProfilesView,
                ProtocolError,
            >(TxProfilesView { names: self.names.take(fitting_profiles(self.names, len - 6) as int), active: self.active }),
    {
        let full = self.spec_bytes();
        let s = full.subrange(0, len);
        let h = Header { packet_type: PacketType::TxProfiles, flags: Flags(0) };
        h.lemma_roundtrip(s.subrange(4, s.len() as int));
        assert(s =~= h.spec_bytes() + s.subrange(4, s.len() as int));
        assert(self.names.take(self.names.len() as int) =~= self.names);
        let pre = header_bytes(PacketType::TxProfiles, Flags(0)) + seq![
            self.names.len() as u8,
            self.active,
        ];
        assert(full =~= pre + profile_entries(self.names));
        lemma_decode_profiles_cut(self.names, pre, len);
        let d = TxProfilesView::spec_decode(s);
        assert(d matches Ok(v) && v =~= TxProfilesView {
            names: self.names.take(fitting_profiles(self.names, len - 6) as int),
            active: self.active,
        });
    }
}

impl TxProfilesPacket {
    /// Appends the list to `buf`; only the first 255 names are sent and each
    /// name is cut to its first 255 UTF-8 bytes.
    pub fn serialize(&self, buf: &mut Vec<u8>)
        ensures
            final(buf)@ == old(buf)@ + self@.spec_bytes(),
    {
        let count: usize = if self.names.len() > 255 {
            255
        } else {
            self.names.len()
        };
        Header::new(PacketType::TxProfiles, Flags::none()).append_to(buf);
        buf.push(count as u8);
        buf.push(self.active);
        let ghost start = buf@;
        let ghost ns = self.names.deep_view();
        for i in 0..count
            invariant
                count <= self.names@.len(),
                ns == self.names.deep_view(),
                buf@ == start + profile_entries(ns.subrange(0, i as int)),
        {
            let bytes = utf8_bytes(&self.names[i]);
            let len: usize = if bytes.len() > 255 {
                255
            } else {
                bytes.len()
            };
            buf.push(len as u8);
            push_bytes(buf, vstd::slice::slice_subrange(bytes, 0, len));
            proof {
                let sub = ns.subrange(0, i + 1);
                assert(sub.drop_last() =~= ns.subrange(0, i as int));
                assert(sub.last() == self.names@[i as int]@);
                assert(bytes@.subrange(0, len as int) =~= bytes@.take(len as int));
            }
        }
        assert(ns.subrange(0, count as int) =~= ns.take(count as int));
        assert(buf@ =~= old(buf)@ + self@.spec_bytes());
    }

    pub fn deserialize(buf: &[u8]) -> (r: Result<TxProfilesPacket, ProtocolError>)
        ensures
            match r {
                Ok(p) => TxProfilesView::spec_decode(buf@) == Ok::<TxProfilesView, ProtocolError>(
                    p@,
                ),
                Err(e) => TxProfilesView::spec_decode(buf@) == Err::<TxProfilesView, ProtocolError>(
                    e,
                ),
            },
    {
        let header = Header::deserialize(buf)?;
        if !matches!(header.packet_type, PacketType::TxProfiles) {
            return Err(ProtocolError::UnexpectedPacketType(header.packet_type));
        }
        if buf.len() < 6 {
            return Err(ProtocolError::TooShort { len: buf.len(), min: 6 });
        }
        let count = buf[4] as usize;
        let active = buf[5];
        let mut pos: usize = 6;
        let mut names: Vec<String> = Vec::with_capacity(count);
        let mut i: usize = 0;
        let ghost s = buf@;
        while i < count
            invariant
                s == buf@,
                s.len() == buf.len(),
                count == s[4] as nat,
                6 <= pos <= buf.len(),
                i <= count,
                names.deep_view() + decode_profiles(s, pos as int, (count - i) as nat)
                    =~= decode_profiles(s, 6, count as nat),
            ensures
                decode_profiles(s, pos as int, (count - i) as nat) =~= Seq::<Seq<char>>::empty(),
            decreases count - i,
        {
            if pos >= buf.len() {
                break;
            }
            let len = buf[pos] as usize;
            if buf.len() - pos - 1 < len {
                break;
            }
            let name = text_from_range(buf, pos + 1, pos + 1 + len);
            let ghost before = names.deep_view();
            let ghost old_items = names@;
            let ghost name_view = name@;
            names.push(name);
            proof {
                let nv = names.deep_view();
                assert forall|k: int| 0 <= k < before.len() implies nv[k] == before[k] by {
                    assert(names@[k] == old_items[k]);
                }
                assert(nv =~= before.push(name_view));
            }
            pos = pos + 1 + len;
            i = i + 1;
        }
        let r = TxProfilesPacket { names, active };
        assert(r@ =~= TxProfilesView::spec_decode(buf@).unwrap());
        Ok(r)
    }
}

} // verus!
