use sdr_remote::audio::MultiChannelAudioPacket;
use sdr_remote::codes::{ControlId, DeviceType, PacketType};
use sdr_remote::control::{ControlPacket, FrequencyPacket, ModePacket, SmeterPacket};
use sdr_remote::equipment::{AmplitecPowerTablePacket, EquipmentCommandPacket, EquipmentStatusPacket};
use sdr_remote::flags::{Capabilities, Flags, ServerStateFlags};
use sdr_remote::header::{Header, ProtocolError, MAGIC, VERSION};
use sdr_remote::packet::Packet;
use sdr_remote::spectrum::SpectrumPacket;
use sdr_remote::spot::SpotPacket;
use sdr_remote::yaesu::{TxProfilesPacket, YaesuStatePacket};

#[test]
fn packet_type_codes_read_back() {
    for code in 0u8..=255 {
        if let Some(t) = PacketType::from_u8(code) {
            assert_eq!(t.code(), code);
        }
    }
    assert_eq!(PacketType::Audio.code(), 0x01);
    assert_eq!(PacketType::Frequency.code(), 0x07);
    assert_eq!(PacketType::Spot.code(), 0x14);
    assert_eq!(PacketType::from_u8(0x00), None);
}

#[test]
fn control_packet_roundtrip() {
    let p = ControlPacket { control_id: ControlId::Rx1AfGain, value: 0xBEEF };
    let mut buf = [0u8; 7];
    p.serialize(&mut buf);
    assert_eq!(buf[2], PacketType::Control.code());
    assert_eq!(ControlPacket::deserialize(&buf), Ok(p));
}

#[test]
fn frequency_mode_smeter_roundtrip() {
    let f = FrequencyPacket { frequency_hz: 14_255_000 };
    let mut b = [0u8; 12];
    f.serialize(&mut b);
    assert_eq!(&b[4..12], &14_255_000u64.to_be_bytes());
    assert_eq!(FrequencyPacket::deserialize(&b), Ok(f));

    let m = ModePacket { mode: 7 };
    let mut b = [0u8; 5];
    m.serialize_as_type(&mut b, PacketType::ModeRx2);
    assert_eq!(ModePacket::deserialize(&b), Ok(m));

    let s = SmeterPacket { level: -120, flags: Flags::ptt_flag() };
    let mut b = [0u8; 6];
    s.serialize(&mut b);
    assert_eq!(SmeterPacket::deserialize(&b), Ok(s));
}

#[test]
fn header_errors_name_the_fault() {
    assert_eq!(Header::deserialize(&[MAGIC, VERSION]), Err(ProtocolError::HeaderTooShort { len: 2 }));
    assert_eq!(Header::deserialize(&[0x12, VERSION, 1, 0]), Err(ProtocolError::InvalidMagic(0x12)));
    assert_eq!(Header::deserialize(&[MAGIC, 99, 1, 0]), Err(ProtocolError::UnsupportedVersion(99)));
    assert_eq!(Header::deserialize(&[MAGIC, VERSION, 0xEE, 0]), Err(ProtocolError::UnknownPacketType(0xEE)));
}

#[test]
fn body_errors_name_the_fault() {
    let mut b = [0u8; 12];
    FrequencyPacket { frequency_hz: 1 }.serialize(&mut b);
    assert_eq!(FrequencyPacket::deserialize(&b[..8]), Err(ProtocolError::TooShort { len: 8, min: 12 }));
    assert_eq!(ModePacket::deserialize(&b), Err(ProtocolError::UnexpectedPacketType(PacketType::Frequency)));
    let bad_control = [MAGIC, VERSION, PacketType::Control.code(), 0, 0xFF, 0, 1];
    assert_eq!(ControlPacket::deserialize(&bad_control), Err(ProtocolError::UnknownControlId(0xFF)));
    let mut cmd = Vec::new();
    EquipmentCommandPacket { device_type: DeviceType::Rotor, command_id: 1, data: vec![1, 2, 3] }.serialize(&mut cmd);
    cmd[4] = 0xEE;
    assert!(matches!(EquipmentCommandPacket::deserialize(&cmd), Err(ProtocolError::UnknownDeviceType(0xEE))));
    let sp = SpectrumPacket {
        sequence: 1,
        num_bins: 4,
        center_freq_hz: 0,
        span_hz: 0,
        ref_level: 0,
        db_per_unit: 2,
        bins: vec![1, 2, 3, 4],
    };
    let mut sbuf = Vec::new();
    sp.serialize(&mut sbuf);
    let cut = &sbuf[..sbuf.len() - 1];
    assert!(matches!(
        SpectrumPacket::deserialize(cut),
        Err(ProtocolError::Truncated { len: 25, needed: 26 })
    ));
}

#[test]
fn spectrum_wide_and_narrow() {
    let wide = SpectrumPacket {
        sequence: 3,
        num_bins: 3,
        center_freq_hz: 7_100_000,
        span_hz: 192_000,
        ref_level: -20,
        db_per_unit: 2,
        bins: vec![0, 0x1234, 0xFFFF],
    };
    let mut buf = Vec::new();
    wide.serialize(&mut buf);
    assert_eq!(buf.len(), SpectrumPacket::HEADER_SIZE + 6);
    let back = SpectrumPacket::deserialize(&buf).unwrap();
    assert_eq!(back.bins, wide.bins);
    assert_eq!(back.ref_level, -20);

    let narrow = SpectrumPacket { db_per_unit: 1, ..wide.clone() };
    let mut buf = Vec::new();
    narrow.serialize_as_type(&mut buf, PacketType::FullSpectrum);
    assert_eq!(buf.len(), SpectrumPacket::HEADER_SIZE + 3);
    let back = SpectrumPacket::deserialize(&buf).unwrap();
    assert_eq!(back.bins, vec![0, 0x12 * 257, 0xFF * 257]);
}

#[test]
fn spot_roundtrip_and_lossy_text() {
    let spot = SpotPacket {
        callsign: "PA3GHM".to_string(),
        frequency_hz: 14_074_000,
        mode: "FT8".to_string(),
        spotter: "DL1ABC".to_string(),
        comment: "cq dx".to_string(),
        age_seconds: 30,
        expiry_seconds: 600,
    };
    let mut buf = Vec::new();
    spot.serialize(&mut buf);
    let back = SpotPacket::deserialize(&buf).unwrap();
    assert_eq!(back.callsign, "PA3GHM");
    assert_eq!(back.mode, "FT8");
    assert_eq!(back.spotter, "DL1ABC");
    assert_eq!(back.comment, "cq dx");
    assert_eq!(back.frequency_hz, 14_074_000);
    assert_eq!((back.age_seconds, back.expiry_seconds), (30, 600));

    // A callsign byte that is not UTF-8 reads back as the replacement character.
    let pos = buf.iter().position(|&b| b == b'P').unwrap();
    buf[pos] = 0xFF;
    let lossy = SpotPacket::deserialize(&buf).unwrap();
    assert_eq!(lossy.callsign, "\u{FFFD}A3GHM");
}

#[test]
fn equipment_packets_roundtrip() {
    let st = EquipmentStatusPacket {
        device_type: DeviceType::Amplitec6x2,
        switch_a: 2,
        switch_b: 5,
        connected: true,
        labels: Some("A,B,C".to_string()),
    };
    let mut buf = Vec::new();
    st.serialize(&mut buf);
    let back = EquipmentStatusPacket::deserialize(&buf).unwrap();
    assert_eq!(back.device_type, DeviceType::Amplitec6x2);
    assert_eq!((back.switch_a, back.switch_b, back.connected), (2, 5, true));
    assert_eq!(back.labels.as_deref(), Some("A,B,C"));

    let table = AmplitecPowerTablePacket { max_w: [100, 200, 300, 400, 500, 600], tx_blocked: [false, true, false, true, false, true] };
    let mut b = [0u8; 22];
    table.serialize(&mut b);
    assert_eq!(AmplitecPowerTablePacket::deserialize(&b).unwrap(), table);

    let cmd = EquipmentCommandPacket { device_type: DeviceType::Rf2k, command_id: 0x20, data: vec![9, 8] };
    let mut buf = Vec::new();
    cmd.serialize(&mut buf);
    let back = EquipmentCommandPacket::deserialize(&buf).unwrap();
    assert_eq!((back.device_type, back.command_id), (DeviceType::Rf2k, 0x20));
    assert_eq!(back.data, vec![9, 8]);
}

#[test]
fn yaesu_packets_roundtrip() {
    let st = YaesuStatePacket {
        freq_a: 7_074_000,
        freq_b: 14_074_000,
        mode: 2,
        smeter: 120,
        tx_active: false,
        power_on: true,
        af_gain: 50,
        tx_power: 100,
        vfo_select: 1,
        memory_channel: 12,
        squelch: 3,
        rf_gain: 200,
        mic_gain: 40,
        split: true,
        scan: false,
    };
    let mut b = [0u8; 35];
    st.serialize(&mut b);
    let back = YaesuStatePacket::deserialize(&b).unwrap();
    assert_eq!(back.freq_a, 7_074_000);
    assert_eq!(back.freq_b, 14_074_000);
    assert_eq!(back.memory_channel, 12);
    assert!(back.split && back.power_on && !back.tx_active && !back.scan);

    let tp = TxProfilesPacket { names: vec!["Default".to_string(), "DX".to_string()], active: 1 };
    let mut buf = Vec::new();
    tp.serialize(&mut buf);
    let back = TxProfilesPacket::deserialize(&buf).unwrap();
    assert_eq!(back.names, vec!["Default".to_string(), "DX".to_string()]);
    assert_eq!(back.active, 1);
}

#[test]
fn multichannel_roundtrip_through_dispatch() {
    let p = MultiChannelAudioPacket { sequence: 9, timestamp: 77, channels: vec![(0, vec![1, 2]), (2, vec![3])] };
    let mut buf = Vec::new();
    p.serialize(&mut buf);
    match Packet::deserialize(&buf).unwrap() {
        Packet::AudioMultiCh(m) => {
            assert_eq!((m.sequence, m.timestamp), (9, 77));
            assert_eq!(m.channels, vec![(0, vec![1, 2]), (2, vec![3])]);
        }
        _ => panic!("unexpected packet kind"),
    }
}

#[test]
fn flag_sets() {
    assert!(Flags::none().with_ptt(true).ptt());
    assert!(!Flags(0xFF).with_ptt(false).ptt());
    assert_eq!(Flags(0xFF).with_ptt(false).0, 0xFE);
    let caps = Capabilities::none().with(Capabilities::SPECTRUM).with(Capabilities::RX2);
    assert!(caps.has(Capabilities::RX2));
    assert!(!caps.has(Capabilities::WIDEBAND_AUDIO));
    let common = caps.intersection(Capabilities(Capabilities::RX2 | Capabilities::WIDEBAND_AUDIO));
    assert_eq!(common.0, Capabilities::RX2);
    let st = ServerStateFlags::none().with(ServerStateFlags::THETIS_RUNNING);
    assert!(st.has(ServerStateFlags::THETIS_RUNNING));
    assert!(!st.has(ServerStateFlags::TCI_CONNECTED));
}

#[test]
fn multichannel_cut_keeps_whole_leading_channels() {
    let p = MultiChannelAudioPacket { sequence: 9, timestamp: 77, channels: vec![(0, vec![1, 2]), (2, vec![3])] };
    let mut buf = Vec::new();
    p.serialize(&mut buf);
    // fixed part 13, first entry 5 bytes, second 4 bytes
    for (len, n) in [(13usize, 0usize), (17, 0), (18, 1), (21, 1), (22, 2)] {
        let m = MultiChannelAudioPacket::deserialize(&buf[..len]).unwrap();
        assert_eq!((m.sequence, m.timestamp), (9, 77));
        assert_eq!(m.channels, p.channels[..n].to_vec());
    }
}

#[test]
fn spot_older_form_and_cut_age() {
    let spot = SpotPacket {
        callsign: "PA3GHM".to_string(),
        frequency_hz: 14_074_000,
        mode: "FT8".to_string(),
        spotter: "DL1ABC".to_string(),
        comment: "cq dx".to_string(),
        age_seconds: 30,
        expiry_seconds: 900,
    };
    let mut buf = Vec::new();
    spot.serialize(&mut buf);
    let old = SpotPacket::deserialize(&buf[..buf.len() - 2]).unwrap();
    assert_eq!(old.callsign, "PA3GHM");
    assert_eq!(old.comment, "cq dx");
    assert_eq!((old.age_seconds, old.expiry_seconds), (30, 600));
    assert!(SpotPacket::deserialize(&buf[..buf.len() - 3]).is_err());
}

#[test]
fn tx_profiles_cut_keeps_whole_leading_names() {
    let tp = TxProfilesPacket { names: vec!["Default".to_string(), "DX".to_string()], active: 1 };
    let mut buf = Vec::new();
    tp.serialize(&mut buf);
    // fixed part 6, "Default" entry 8 bytes, "DX" entry 3 bytes
    for (len, n) in [(6usize, 0usize), (13, 0), (14, 1), (16, 1), (17, 2)] {
        let back = TxProfilesPacket::deserialize(&buf[..len]).unwrap();
        assert_eq!(back.active, 1);
        assert_eq!(back.names, tp.names[..n].to_vec());
    }
}
