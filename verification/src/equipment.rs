//! External equipment: status reports, commands, command identifiers and
//! the Amplitec power-cap table.

use vstd::prelude::*;
use vstd::utf8::encode_utf8;

use crate::codes::{DeviceType, PacketType};
use crate::flags::Flags;
use crate::header::{header_bytes, Header, ProtocolError};
use crate::text::{lemma_text_roundtrip, lossy_text, text_from_range, utf8_bytes};
use crate::wire::{be16, copy_into, copy_range, get_be16, lemma_be16, push_be16, push_bytes, read_be16};

verus! {

/// Remote server command ids.
pub const CMD_SERVER_REBOOT: u8 = 0x01;
pub const CMD_SERVER_SHUTDOWN: u8 = 0x02;

/// Amplitec 6/2 command id that carries a power-cap table (18 data bytes).
pub const CMD_AMPLITEC_SET_POWER_TABLE: u8 = 0x10;

/// Tuner command ids.
pub const CMD_TUNE_START: u8 = 0x01;
pub const CMD_TUNE_ABORT: u8 = 0x02;

/// SPE Expert command ids.
pub const CMD_SPE_OPERATE: u8 = 0x01;
pub const CMD_SPE_TUNE: u8 = 0x02;
pub const CMD_SPE_ANTENNA: u8 = 0x03;
pub const CMD_SPE_INPUT: u8 = 0x04;
pub const CMD_SPE_POWER: u8 = 0x05;
pub const CMD_SPE_BAND_UP: u8 = 0x06;
pub const CMD_SPE_BAND_DOWN: u8 = 0x07;
pub const CMD_SPE_OFF: u8 = 0x08;
pub const CMD_SPE_POWER_ON: u8 = 0x09;
pub const CMD_SPE_DRIVE_DOWN: u8 = 0x0A;
pub const CMD_SPE_DRIVE_UP: u8 = 0x0B;

/// RF2K-S command ids.
pub const CMD_RF2K_OPERATE: u8 = 0x01;
pub const CMD_RF2K_TUNE: u8 = 0x02;
pub const CMD_RF2K_ANT1: u8 = 0x03;
pub const CMD_RF2K_ANT2: u8 = 0x04;
pub const CMD_RF2K_ANT3: u8 = 0x05;
pub const CMD_RF2K_ANT4: u8 = 0x06;
pub const CMD_RF2K_ANT_EXT: u8 = 0x07;
pub const CMD_RF2K_ERROR_RESET: u8 = 0x08;
pub const CMD_RF2K_CLOSE: u8 = 0x09;
pub const CMD_RF2K_TUNER_MODE: u8 = 0x10;
pub const CMD_RF2K_TUNER_BYPASS: u8 = 0x11;
pub const CMD_RF2K_TUNER_RESET: u8 = 0x12;
pub const CMD_RF2K_TUNER_STORE: u8 = 0x13;
pub const CMD_RF2K_TUNER_L_UP: u8 = 0x14;
pub const CMD_RF2K_TUNER_L_DOWN: u8 = 0x15;
pub const CMD_RF2K_TUNER_C_UP: u8 = 0x16;
pub const CMD_RF2K_TUNER_C_DOWN: u8 = 0x17;
pub const CMD_RF2K_TUNER_K: u8 = 0x18;
pub const CMD_RF2K_DRIVE_UP: u8 = 0x20;
pub const CMD_RF2K_DRIVE_DOWN: u8 = 0x21;
pub const CMD_RF2K_SET_HIGH_POWER: u8 = 0x30;
pub const CMD_RF2K_SET_TUNER_6M: u8 = 0x31;
pub const CMD_RF2K_SET_BAND_GAP: u8 = 0x32;
pub const CMD_RF2K_FRQ_DELAY_UP: u8 = 0x33;
pub const CMD_RF2K_FRQ_DELAY_DOWN: u8 = 0x34;
pub const CMD_RF2K_AUTOTUNE_THRESH_UP: u8 = 0x35;
pub const CMD_RF2K_AUTOTUNE_THRESH_DOWN: u8 = 0x36;
pub const CMD_RF2K_DAC_ALC_UP: u8 = 0x37;
pub const CMD_RF2K_DAC_ALC_DOWN: u8 = 0x38;
pub const CMD_RF2K_ZERO_FRAM: u8 = 0x39;
pub const CMD_RF2K_SET_DRIVE_SSB: u8 = 0x40;
pub const CMD_RF2K_SET_DRIVE_AM: u8 = 0x41;
pub const CMD_RF2K_SET_DRIVE_CONT: u8 = 0x42;

/// UltraBeam RCU-06 command ids.
pub const CMD_UB_RETRACT: u8 = 0x01;
pub const CMD_UB_SET_FREQ: u8 = 0x02;
pub const CMD_UB_READ_ELEMENTS: u8 = 0x03;
pub const CMD_UB_MODIFY_ELEMENT: u8 = 0x04;

/// Rotor command ids.
pub const CMD_ROTOR_GOTO: u8 = 0x01;
pub const CMD_ROTOR_STOP: u8 = 0x02;
pub const CMD_ROTOR_CW: u8 = 0x03;
pub const CMD_ROTOR_CCW: u8 = 0x04;

/// Status-flags bit: a labels field follows the fixed part.
pub const EQUIPMENT_FLAG_HAS_LABELS: u8 = 0x01;

/// Equipment status: header(4) + device_type(1) + flags(1) + switch_a(1) +
/// switch_b(1) + connected(1) [+ labels_len(2) + labels when flag bit 0 set].
#[derive(Debug, Clone)]
pub struct EquipmentStatusPacket {
    pub device_type: DeviceType,
    pub switch_a: u8,
    pub switch_b: u8,
    pub connected: bool,
    pub labels: Option<String>,
}

/// Mathematical view of an `EquipmentStatusPacket`.
pub struct EquipmentStatusView {
    pub device_type: DeviceType,
    pub switch_a: u8,
    pub switch_b: u8,
    pub connected: bool,
    pub labels: Option<Seq<char>>,
}

impl View for EquipmentStatusPacket {
    type V = EquipmentStatusView;

    open spec fn view(&self) -> EquipmentStatusView {
        EquipmentStatusView {
            device_type: self.device_type,
            switch_a: self.switch_a,
            switch_b: self.switch_b,
            connected: self.connected,
            labels: match self.labels {
                Some(l) => Some(l@),
                None => None,
            },
        }
    }
}

/// A boolean as a wire byte.
pub open spec fn bool_byte(b: bool) -> u8 {
    if b {
        1
    } else {
        0
    }
}

impl EquipmentStatusView {
    /// Wire bytes of the status report. The labels length field holds the
    /// UTF-8 length modulo 2^16; all label bytes follow it.
    pub open spec fn spec_bytes(self) -> Seq<u8> {
        header_bytes(PacketType::EquipmentStatus, Flags(0)) + seq![
            self.device_type.spec_code(),
            if self.labels is Some {
                EQUIPMENT_FLAG_HAS_LABELS
            } else {
                0
            },
            self.switch_a,
            self.switch_b,
            bool_byte(self.connected),
        ] + match self.labels {
            Some(l) => be16((encode_utf8(l).len() % 0x1_0000) as u16) + encode_utf8(l),
            None => seq![],
        }
    }

    /// What decoding `s` as an equipment status report gives. A labels field
    /// that does not fit the buffer is dropped without an error.
    pub open spec fn spec_decode(s: Seq<u8>) -> Result<EquipmentStatusView, ProtocolError> {
        match Header::spec_decode(s) {
            Err(e) => Err(e),
            Ok(h) => if h.packet_type != PacketType::EquipmentStatus {
                Err(ProtocolError::UnexpectedPacketType(h.packet_type))
            } else if s.len() < 9 {
                Err(ProtocolError::TooShort { len: s.len() as usize, min: 9 })
            } else {
                match DeviceType::spec_from_code(s[4]) {
                    None => Err(ProtocolError::UnknownDeviceType(s[4])),
                    Some(d) => Ok(
                        EquipmentStatusView {
                            device_type: d,
                            switch_a: s[6],
                            switch_b: s[7],
                            connected: s[8] != 0,
                            labels: if s[5] & EQUIPMENT_FLAG_HAS_LABELS != 0 && s.len() >= 11
                                && s.len() >= 11 + read_be16(s, 9) {
                                Some(lossy_text(s.subrange(11, 11 + read_be16(s, 9))))
                            } else {
                                None
                            },
                        },
                    ),
                }
            },
        }
    }

    /// A status report whose labels encode to at most 65535 bytes decodes
    /// back from its bytes, whatever follows them.
    pub proof fn lemma_roundtrip(self, rest: Seq<u8>)
        requires
            self.labels matches Some(l) ==> encode_utf8(l).len() <= 0xFFFF,
        ensures
            EquipmentStatusView::spec_decode(self.spec_bytes() + rest) == Ok::<
                EquipmentStatusView,
                ProtocolError,
            >(self),
    {
        let s = self.spec_bytes() + rest;
        let h = Header { packet_type: PacketType::EquipmentStatus, flags: Flags(0) };
        h.lemma_roundtrip(s.subrange(4, s.len() as int));
        assert(s =~= h.spec_bytes() + s.subrange(4, s.len() as int));
        self.device_type.lemma_code_roundtrip(0);
        assert(1u8 & 1u8 != 0) by (bit_vector);
        assert(0u8 & 1u8 == 0) by (bit_vector);
        match self.labels {
            Some(l) => {
                let b = encode_utf8(l);
                let n = b.len() as u16;
                lemma_be16(n, s, 9);
                assert(s.subrange(9, 11) =~= be16(n));
                assert(s.subrange(11, 11 + n) =~= b);
                lemma_text_roundtrip(l);
            },
            None => {},
        }
    }
}

impl EquipmentStatusPacket {
    /// Size of the fixed part.
    pub const MIN_SIZE: usize = 9;

    /// Appends the status report to `buf`.
    pub fn serialize(&self, buf: &mut Vec<u8>)
        ensures
            final(buf)@ == old(buf)@ + self@.spec_bytes(),
    {
        Header::new(PacketType::EquipmentStatus, Flags::none()).append_to(buf);
        buf.push(self.device_type.code());
        buf.push(
            if self.labels.is_some() {
                EQUIPMENT_FLAG_HAS_LABELS
            } else {
                0
            },
        );
        buf.push(self.switch_a);
        buf.push(self.switch_b);
        buf.push(
            if self.connected {
                1
            } else {
                0
            },
        );
        match &self.labels {
            Some(l) => {
                let bytes = utf8_bytes(l);
                push_be16(buf, (bytes.len() % 0x1_0000) as u16);
                push_bytes(buf, bytes);
            },
            None => {},
        }
        assert(buf@ =~= old(buf)@ + self@.spec_bytes());
    }

    pub fn deserialize(buf: &[u8]) -> (r: Result<EquipmentStatusPacket, ProtocolError>)
        ensures
            match r {
                Ok(p) => EquipmentStatusView::spec_decode(buf@) == Ok::<
                    EquipmentStatusView,
                    ProtocolError,
                >(p@),
                Err(e) => EquipmentStatusView::spec_decode(buf@) == Err::<
                    EquipmentStatusView,
                    ProtocolError,
                >(e),
            },
    {
        let header = Header::deserialize(buf)?;
        if !matches!(header.packet_type, PacketType::EquipmentStatus) {
            return Err(ProtocolError::UnexpectedPacketType(header.packet_type));
        }
        if buf.len() < 9 {
            return Err(ProtocolError::TooShort { len: buf.len(), min: 9 });
        }
        let device_type = match DeviceType::from_u8(buf[4]) {
            Some(d) => d,
            None => {
                return Err(ProtocolError::UnknownDeviceType(buf[4]));
            },
        };
        let flags = buf[5];
        let switch_a = buf[6];
        let switch_b = buf[7];
        let connected = buf[8] != 0;
        let labels = if flags & EQUIPMENT_FLAG_HAS_LABELS != 0 && buf.len() >= 11 {
            let labels_len = get_be16(buf, 9) as usize;
            if buf.len() - 11 >= labels_len {
                Some(text_from_range(buf, 11, 11 + labels_len))
            } else {
                None
            }
        } else {
            None
        };
        let r = EquipmentStatusPacket { device_type, switch_a, switch_b, connected, labels };
        assert(r@ == EquipmentStatusView::spec_decode(buf@).unwrap());
        Ok(r)
    }
}

/// Amplitec power-cap table: header(4) + 6 x { max_w u16 BE, tx_blocked u8 }
/// = 22 bytes. Index 0 is position 1. A `max_w` of 0 means no cap.
#[derive(Debug, Clone, PartialEq, Eq)]
pub struct AmplitecPowerTablePacket {
    /// Max forward watts per position (0 = no cap).
    pub max_w: [u16; 6],
    /// TX blocked per position (receive only).
    pub tx_blocked: [bool; 6],
}

/// Mathematical view of an `AmplitecPowerTablePacket`.
#[verifier::ext_equal]
pub struct AmplitecPowerTableView {
    pub max_w: Seq<u16>,
    pub tx_blocked: Seq<bool>,
}

impl View for AmplitecPowerTablePacket {
    type V = AmplitecPowerTableView;

    open spec fn view(&self) -> AmplitecPowerTableView {
        AmplitecPowerTableView { max_w: self.max_w@, tx_blocked: self.tx_blocked@ }
    }
}

impl AmplitecPowerTableView {
    /// Wire bytes of the table entries `0..n`.
    pub open spec fn entries_bytes(self, n: nat) -> Seq<u8>
        decreases n,
    {
        if n == 0 {
            seq![]
        } else {
            self.entries_bytes((n - 1) as nat) + be16(self.max_w[n - 1]) + seq![
                bool_byte(self.tx_blocked[n - 1]),
            ]
        }
    }

    /// Wire bytes of the table.
    pub open spec fn spec_bytes(self) -> Seq<u8> {
        header_bytes(PacketType::AmplitecPowerTable, Flags(0)) + self.entries_bytes(6)
    }

    /// What decoding `s` as a power-cap table gives. The length is checked
    /// before the header.
    pub open spec fn spec_decode(s: Seq<u8>) -> Result<AmplitecPowerTableView, ProtocolError> {
        if s.len() < 22 {
            Err(ProtocolError::TooShort { len: s.len() as usize, min: 22 })
        } else {
            match Header::spec_decode(s) {
                Err(e) => Err(e),
                Ok(h) => if h.packet_type != PacketType::AmplitecPowerTable {
                    Err(ProtocolError::UnexpectedPacketType(h.packet_type))
                } else {
                    Ok(
                        AmplitecPowerTableView {
                            max_w: Seq::new(6, |i: int| read_be16(s, 4 + 3 * i)),
                            tx_blocked: Seq::new(6, |i: int| s[6 + 3 * i] != 0),
                        },
                    )
                },
            }
        }
    }

    /// A table of six entries decodes back from its bytes, whatever follows.
    pub proof fn lemma_roundtrip(self, rest: Seq<u8>)
        requires
            self.max_w.len() == 6,
            self.tx_blocked.len() == 6,
        ensures
            AmplitecPowerTableView::spec_decode(self.spec_bytes() + rest) == Ok::<
                AmplitecPowerTableView,
                ProtocolError,
            >(self),
    {
        let s = self.spec_bytes() + rest;
        let h = Header { packet_type: PacketType::AmplitecPowerTable, flags: Flags(0) };
        self.lemma_entries(6);
        h.lemma_roundtrip(s.subrange(4, s.len() as int));
        assert(s =~= h.spec_bytes() + s.subrange(4, s.len() as int));
        let e = self.entries_bytes(6);
        assert forall|i: int| 0 <= i < 6 implies read_be16(s, 4 + 3 * i) == self.max_w[i] && (s[6
            + 3 * i] != 0) == self.tx_blocked[i] by {
            assert(read_be16(e, 3 * i) == self.max_w[i]);
            assert((e[3 * i + 2] != 0) == self.tx_blocked[i]);
            assert(s[4 + 3 * i] == e[3 * i]);
            assert(s[5 + 3 * i] == e[3 * i + 1]);
            assert(s[6 + 3 * i] == e[3 * i + 2]);
        }
        let d = AmplitecPowerTableView::spec_decode(s);
        assert(d matches Ok(v) && v =~= self);
    }

    proof fn lemma_entries(self, n: nat)
        requires
            n <= self.max_w.len(),
            n <= self.tx_blocked.len(),
        ensures
            self.entries_bytes(n).len() == 3 * n,
            forall|i: int|
                0 <= i < n ==> #[trigger] read_be16(self.entries_bytes(n), 3 * i) == self.max_w[i],
            forall|i: int|
                0 <= i < n ==> (#[trigger] self.entries_bytes(n)[3 * i + 2] != 0)
                    == self.tx_blocked[i],
        decreases n,
    {
        if n > 0 {
            let m = (n - 1) as nat;
            self.lemma_entries(m);
            let e = self.entries_bytes(n);
            let p = self.entries_bytes(m);
            lemma_be16(self.max_w[m as int], e, 0);
            assert forall|i: int| 0 <= i < n implies #[trigger] read_be16(e, 3 * i) == self.max_w[i]
                && (e[3 * i + 2] != 0) == self.tx_blocked[i] by {
                if i < m {
                    assert(e[3 * i] == p[3 * i]);
                    assert(e[3 * i + 1] == p[3 * i + 1]);
                    assert(e[3 * i + 2] == p[3 * i + 2]);
                    assert(read_be16(p, 3 * i) == self.max_w[i]);
                    assert(p[3 * i + 2] != 0 <==> self.tx_blocked[i]);
                } else {
                    let b = be16(self.max_w[m as int]);
                    assert(e =~= p + b + seq![bool_byte(self.tx_blocked[m as int])]);
                    assert(e[3 * i] == b[0]);
                    assert(e[3 * i + 1] == b[1]);
                    assert(e[3 * i + 2] == bool_byte(self.tx_blocked[m as int]));
                    assert(read_be16(b, 0) == self.max_w[m as int]);
                }
            }
        }
    }
}

impl AmplitecPowerTablePacket {
    /// Total size of the packet.
    pub const SIZE: usize = 22;

    pub fn serialize(&self, buf: &mut [u8; 22])
        ensures
            final(buf)@ == self@.spec_bytes(),
    {
        let mut v: Vec<u8> = Vec::with_capacity(22);
        Header::new(PacketType::AmplitecPowerTable, Flags::none()).append_to(&mut v);
        let ghost start = v@;
        for i in 0..6
            invariant
                v@ == start + self@.entries_bytes(i as nat),
        {
            push_be16(&mut v, self.max_w[i]);
            v.push(
                if self.tx_blocked[i] {
                    1
                } else {
                    0
                },
            );
        }
        proof {
            self@.lemma_entries(6);
        }
        copy_into(buf, &v);
    }

    pub fn deserialize(buf: &[u8]) -> (r: Result<AmplitecPowerTablePacket, ProtocolError>)
        ensures
            result_view_table(r) == AmplitecPowerTableView::spec_decode(buf@),
    {
        if buf.len() < 22 {
            return Err(ProtocolError::TooShort { len: buf.len(), min: 22 });
        }
        let header = Header::deserialize(buf)?;
        if !matches!(header.packet_type, PacketType::AmplitecPowerTable) {
            return Err(ProtocolError::UnexpectedPacketType(header.packet_type));
        }
        let mut max_w = [0u16; 6];
        let mut tx_blocked = [false; 6];
        for i in 0..6
            invariant
                buf@.len() >= 22,
                max_w@.len() == 6,
                tx_blocked@.len() == 6,
                forall|k: int| 0 <= k < i ==> max_w@[k] == read_be16(buf@, 4 + 3 * k),
                forall|k: int| 0 <= k < i ==> tx_blocked@[k] == (buf@[6 + 3 * k] != 0),
        {
            max_w[i] = get_be16(buf, 4 + i * 3);
            tx_blocked[i] = buf[6 + i * 3] != 0;
        }
        let r = AmplitecPowerTablePacket { max_w, tx_blocked };
        assert(r@ =~= AmplitecPowerTableView::spec_decode(buf@).unwrap());
        Ok(r)
    }
}

/// A decoded power-cap table seen through its view.
pub open spec fn result_view_table(r: Result<AmplitecPowerTablePacket, ProtocolError>) -> Result<
    AmplitecPowerTableView,
    ProtocolError,
> {
    match r {
        Ok(p) => Ok(p@),
        Err(e) => Err(e),
    }
}

/// Equipment command: header(4) + device_type(1) + command_id(1) + data.
#[derive(Debug, Clone)]
pub struct EquipmentCommandPacket {
    pub device_type: DeviceType,
    pub command_id: u8,
    pub data: Vec<u8>,
}

/// Mathematical view of an `EquipmentCommandPacket`.
#[verifier::ext_equal]
pub struct EquipmentCommandView {
    pub device_type: DeviceType,
    pub command_id: u8,
    pub data: Seq<u8>,
}

impl View for EquipmentCommandPacket {
    type V = EquipmentCommandView;

    open spec fn view(&self) -> EquipmentCommandView {
        EquipmentCommandView {
            device_type: self.device_type,
            command_id: self.command_id,
            data: self.data@,
        }
    }
}

impl EquipmentCommandView {
    /// Wire bytes of the command.
    pub open spec fn spec_bytes(self) -> Seq<u8> {
        header_bytes(PacketType::EquipmentCommand, Flags(0)) + seq![
            self.device_type.spec_code(),
            self.command_id,
        ] + self.data
    }

    /// What decoding `s` as an equipment command gives; every byte after the
    /// fixed part is command data.
    pub open spec fn spec_decode(s: Seq<u8>) -> Result<EquipmentCommandView, ProtocolError> {
        match Header::spec_decode(s) {
            Err(e) => Err(e),
            Ok(h) => if h.packet_type != PacketType::EquipmentCommand {
                Err(ProtocolError::UnexpectedPacketType(h.packet_type))
            } else if s.len() < 6 {
                Err(ProtocolError::TooShort { len: s.len() as usize, min: 6 })
            } else {
                match DeviceType::spec_from_code(s[4]) {
                    None => Err(ProtocolError::UnknownDeviceType(s[4])),
                    Some(d) => Ok(
                        EquipmentCommandView {
                            device_type: d,
                            command_id: s[5],
                            data: s.subrange(6, s.len() as int),
                        },
                    ),
                }
            },
        }
    }

    /// A command decodes back from exactly its bytes.
    pub proof fn lemma_roundtrip(self)
        ensures
            EquipmentCommandView::spec_decode(self.spec_bytes()) == Ok::<
                EquipmentCommandView,
                ProtocolError,
            >(self),
    {
        let s = self.spec_bytes();
        let h = Header { packet_type: PacketType::EquipmentCommand, flags: Flags(0) };
        h.lemma_roundtrip(s.subrange(4, s.len() as int));
        assert(s =~= h.spec_bytes() + s.subrange(4, s.len() as int));
        self.device_type.lemma_code_roundtrip(0);
        assert(s.subrange(6, s.len() as int) =~= self.data);
        let d = EquipmentCommandView::spec_decode(s);
        assert(d matches Ok(v) && v =~= self);
    }
}

impl EquipmentCommandPacket {
    /// Size of the fixed part.
    pub const MIN_SIZE: usize = 6;

    /// Amplitec: select position on switch A.
    pub const CMD_SET_SWITCH_A: u8 = 0x01;

    /// Amplitec: select position on switch B.
    pub const CMD_SET_SWITCH_B: u8 = 0x02;

    /// Appends the command to `buf`.
    pub fn serialize(&self, buf: &mut Vec<u8>)
        ensures
            final(buf)@ == old(buf)@ + self@.spec_bytes(),
    {
        Header::new(PacketType::EquipmentCommand, Flags::none()).append_to(buf);
        buf.push(self.device_type.code());
        buf.push(self.command_id);
        push_bytes(buf, self.data.as_slice());
        assert(buf@ =~= old(buf)@ + self@.spec_bytes());
    }

    pub fn deserialize(buf: &[u8]) -> (r: Result<EquipmentCommandPacket, ProtocolError>)
        ensures
            match r {
                Ok(p) => EquipmentCommandView::spec_decode(buf@) == Ok::<
                    EquipmentCommandView,
                    ProtocolError,
                >(p@),
                Err(e) => EquipmentCommandView::spec_decode(buf@) == Err::<
                    EquipmentCommandView,
                    ProtocolError,
                >(e),
            },
    {
        let header = Header::deserialize(buf)?;
        if !matches!(header.packet_type, PacketType::EquipmentCommand) {
            return Err(ProtocolError::UnexpectedPacketType(header.packet_type));
        }
        if buf.len() < 6 {
            return Err(ProtocolError::TooShort { len: buf.len(), min: 6 });
        }
        let device_type = match DeviceType::from_u8(buf[4]) {
            Some(d) => d,
            None => {
                return Err(ProtocolError::UnknownDeviceType(buf[4]));
            },
        };
        let command_id = buf[5];
        let data = copy_range(buf, 6, buf.len());
        let r = EquipmentCommandPacket { device_type, command_id, data };
        assert(r@ =~= EquipmentCommandView::spec_decode(buf@).unwrap());
        Ok(r)
    }
}

} // verus!
