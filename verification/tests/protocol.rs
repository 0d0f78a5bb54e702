use sdr_remote::audio::AudioPacket;
use sdr_remote::codes::PacketType;
use sdr_remote::flags::{Capabilities, Flags, ServerStateFlags};
use sdr_remote::header::{Header, MAGIC, VERSION};
use sdr_remote::heartbeat::{Heartbeat, HeartbeatAck};
use sdr_remote::packet::Packet;

#[test]
fn header_roundtrip() {
    let header = Header::new(PacketType::Audio, Flags::ptt_flag());
    let mut buf = [0u8; 4];
    header.serialize(&mut buf);

    assert_eq!(buf[0], MAGIC);
    assert_eq!(buf[1], VERSION);
    assert_eq!(buf[2], 0x01);
    assert_eq!(buf[3], 0x01);

    let decoded = Header::deserialize(&buf).unwrap();
    assert_eq!(decoded.packet_type, PacketType::Audio);
    assert!(decoded.flags.ptt());
}

#[test]
fn header_invalid_magic() {
    let buf = [0x00, VERSION, 0x01, 0x00];
    assert!(Header::deserialize(&buf).is_err());
}

#[test]
fn audio_packet_roundtrip() {
    let packet = AudioPacket {
        flags: Flags::none(),
        sequence: 42,
        timestamp: 12345,
        opus_data: vec![0xDE, 0xAD, 0xBE, 0xEF],
    };
    let mut buf = Vec::new();
    packet.serialize(&mut buf);

    assert_eq!(buf.len(), AudioPacket::HEADER_SIZE + 4);

    let decoded = AudioPacket::deserialize(&buf).unwrap();
    assert_eq!(decoded.sequence, 42);
    assert_eq!(decoded.timestamp, 12345);
    assert_eq!(decoded.opus_data, vec![0xDE, 0xAD, 0xBE, 0xEF]);
    assert!(!decoded.flags.ptt());
}

#[test]
fn audio_packet_with_ptt() {
    let packet = AudioPacket {
        flags: Flags::ptt_flag(),
        sequence: 1,
        timestamp: 0,
        opus_data: vec![0x01],
    };
    let mut buf = Vec::new();
    packet.serialize(&mut buf);

    let decoded = AudioPacket::deserialize(&buf).unwrap();
    assert!(decoded.flags.ptt());
}

#[test]
fn heartbeat_roundtrip() {
    let hb = Heartbeat {
        flags: Flags::none(),
        sequence: 100,
        local_time: 999_999,
        rtt_ms: 45,
        loss_percent: 2,
        jitter_ms: 10,
        capabilities: Capabilities::none().with(Capabilities::WIDEBAND_AUDIO),
    };
    let mut buf = [0u8; Heartbeat::SIZE];
    hb.serialize(&mut buf);

    assert_eq!(buf.len(), 20);

    let decoded = Heartbeat::deserialize(&buf).unwrap();
    assert_eq!(decoded.sequence, 100);
    assert_eq!(decoded.local_time, 999_999);
    assert_eq!(decoded.rtt_ms, 45);
    assert_eq!(decoded.loss_percent, 2);
    assert_eq!(decoded.jitter_ms, 10);
    assert!(decoded.capabilities.has(Capabilities::WIDEBAND_AUDIO));
}

#[test]
fn heartbeat_backward_compat() {
    // A 16-byte heartbeat without capabilities.
    let mut buf = [0u8; 16];
    buf[0] = MAGIC;
    buf[1] = VERSION;
    buf[2] = PacketType::Heartbeat.code();
    buf[3] = 0;
    buf[4..8].copy_from_slice(&42u32.to_be_bytes());
    let decoded = Heartbeat::deserialize(&buf).unwrap();
    assert_eq!(decoded.sequence, 42);
    assert_eq!(decoded.capabilities, Capabilities::none());
}

#[test]
fn heartbeat_ack_roundtrip() {
    let ack = HeartbeatAck {
        flags: Flags::none(),
        echo_sequence: 100,
        echo_time: 999_999,
        capabilities: Capabilities::none().with(Capabilities::WIDEBAND_AUDIO),
        state_flags: ServerStateFlags::none().with(ServerStateFlags::TCI_CONNECTED),
    };
    let mut buf = [0u8; HeartbeatAck::SIZE];
    ack.serialize(&mut buf);

    assert_eq!(buf.len(), 20);
    assert_eq!(HeartbeatAck::SIZE, 20);

    let decoded = HeartbeatAck::deserialize(&buf).unwrap();
    assert_eq!(decoded.echo_sequence, 100);
    assert_eq!(decoded.echo_time, 999_999);
    assert!(decoded.capabilities.has(Capabilities::WIDEBAND_AUDIO));
    assert!(decoded.state_flags.has(ServerStateFlags::TCI_CONNECTED));
}

#[test]
fn heartbeat_ack_backward_compat_12_byte() {
    // A 12-byte acknowledgement without capabilities or state flags.
    let mut buf = [0u8; 12];
    buf[0] = MAGIC;
    buf[1] = VERSION;
    buf[2] = PacketType::HeartbeatAck.code();
    buf[3] = 0;
    buf[4..8].copy_from_slice(&55u32.to_be_bytes());
    buf[8..12].copy_from_slice(&12345u32.to_be_bytes());
    let decoded = HeartbeatAck::deserialize(&buf).unwrap();
    assert_eq!(decoded.echo_sequence, 55);
    assert_eq!(decoded.echo_time, 12345);
    assert_eq!(decoded.capabilities, Capabilities::none());
    assert_eq!(decoded.state_flags, ServerStateFlags::none());
}

#[test]
fn heartbeat_ack_intermediate_compat_16_byte() {
    // A 16-byte acknowledgement: capabilities present, state flags absent.
    let mut buf = [0u8; 16];
    buf[0] = MAGIC;
    buf[1] = VERSION;
    buf[2] = PacketType::HeartbeatAck.code();
    buf[3] = 0;
    buf[4..8].copy_from_slice(&77u32.to_be_bytes());
    buf[8..12].copy_from_slice(&54321u32.to_be_bytes());
    buf[12..16].copy_from_slice(&Capabilities::WIDEBAND_AUDIO.to_be_bytes());
    let decoded = HeartbeatAck::deserialize(&buf).unwrap();
    assert_eq!(decoded.echo_sequence, 77);
    assert_eq!(decoded.echo_time, 54321);
    assert!(decoded.capabilities.has(Capabilities::WIDEBAND_AUDIO));
    // Absent state flags read as empty.
    assert_eq!(decoded.state_flags, ServerStateFlags::none());
}

#[test]
fn packet_dispatch() {
    let audio = AudioPacket {
        flags: Flags::none(),
        sequence: 1,
        timestamp: 0,
        opus_data: vec![0x00],
    };
    let mut buf = Vec::new();
    audio.serialize(&mut buf);
    assert!(matches!(Packet::deserialize(&buf).unwrap(), Packet::Audio(_)));

    let hb = Heartbeat {
        flags: Flags::none(),
        sequence: 1,
        local_time: 0,
        rtt_ms: 0,
        loss_percent: 0,
        jitter_ms: 0,
        capabilities: Capabilities::none(),
    };
    let mut buf = [0u8; Heartbeat::SIZE];
    hb.serialize(&mut buf);
    assert!(matches!(
        Packet::deserialize(&buf).unwrap(),
        Packet::Heartbeat(_)
    ));

    let ack = HeartbeatAck {
        flags: Flags::none(),
        echo_sequence: 1,
        echo_time: 0,
        capabilities: Capabilities::none(),
        state_flags: ServerStateFlags::none(),
    };
    let mut buf = [0u8; HeartbeatAck::SIZE];
    ack.serialize(&mut buf);
    assert!(matches!(
        Packet::deserialize(&buf).unwrap(),
        Packet::HeartbeatAck(_)
    ));
}

#[test]
fn flags_operations() {
    let f = Flags::none();
    assert!(!f.ptt());

    let f = f.with_ptt(true);
    assert!(f.ptt());
    assert_eq!(f, Flags::ptt_flag());

    let f = f.with_ptt(false);
    assert!(!f.ptt());
    assert_eq!(f, Flags::none());
}

#[test]
fn audio_packet_truncated() {
    let packet = AudioPacket {
        flags: Flags::none(),
        sequence: 1,
        timestamp: 0,
        opus_data: vec![0x01, 0x02, 0x03],
    };
    let mut buf = Vec::new();
    packet.serialize(&mut buf);

    // Keep the fixed part but cut the payload.
    buf.truncate(AudioPacket::HEADER_SIZE + 1);
    assert!(AudioPacket::deserialize(&buf).is_err());
}
