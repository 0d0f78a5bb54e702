//! Decoding any incoming packet by its header, and the wire format of every
//! packet kind taken together.

use vstd::prelude::*;
use vstd::utf8::encode_utf8;

use crate::audio::{
    channels_fit, AudioPacket, AudioPacketView, MultiChannelAudioPacket,
    MultiChannelAudioView,
};
use crate::codes::PacketType;
use crate::control::{ControlPacket, FrequencyPacket, ModePacket, SmeterPacket};
use crate::equipment::{
    AmplitecPowerTablePacket, AmplitecPowerTableView, EquipmentCommandPacket,
    EquipmentCommandView, EquipmentStatusPacket, EquipmentStatusView,
};
use crate::flags::Flags;
use crate::header::{header_bytes, Header, ProtocolError};
use crate::heartbeat::{Heartbeat, HeartbeatAck};
use crate::spectrum::{SpectrumPacket, SpectrumView};
use crate::spot::{text_fits, SpotPacket, SpotView};
use crate::text::{lemma_text_roundtrip, lossy_text, text_from_range};
use crate::wire::{be16, get_be16, lemma_be16, read_be16};
use crate::yaesu::{profiles_fit, TxProfilesPacket, TxProfilesView, YaesuStatePacket};

verus! {

/// Authentication result: rejected.
pub const AUTH_REJECTED: u8 = 0;

/// Authentication result: accepted.
pub const AUTH_ACCEPTED: u8 = 1;

/// Authentication result: a TOTP code is required.
pub const AUTH_TOTP_REQUIRED: u8 = 2;

/// Any incoming packet, parsed by peeking at the header.
pub enum Packet {
    Audio(AudioPacket),
    Heartbeat(Heartbeat),
    HeartbeatAck(HeartbeatAck),
    Control(ControlPacket),
    Disconnect,
    PttDenied,
    Frequency(FrequencyPacket),
    Mode(ModePacket),
    Smeter(SmeterPacket),
    Spectrum(SpectrumPacket),
    FullSpectrum(SpectrumPacket),
    EquipmentStatus(EquipmentStatusPacket),
    EquipmentCommand(EquipmentCommandPacket),
    AmplitecPowerTable(AmplitecPowerTablePacket),
    AudioRx2(AudioPacket),
    FrequencyRx2(FrequencyPacket),
    ModeRx2(ModePacket),
    SmeterRx2(SmeterPacket),
    SmeterSig(SmeterPacket),
    SmeterMaxBin(SmeterPacket),
    SmeterRx2Sig(SmeterPacket),
    SmeterRx2MaxBin(SmeterPacket),
    SpectrumRx2(SpectrumPacket),
    FullSpectrumRx2(SpectrumPacket),
    Spot(SpotPacket),
    TxProfiles(TxProfilesPacket),
    AudioYaesu(AudioPacket),
    AudioBinR(AudioPacket),
    AudioMultiCh(MultiChannelAudioPacket),
    YaesuState(YaesuStatePacket),
    FrequencyYaesu(FrequencyPacket),
    /// Tab-separated memory listing.
    YaesuMemoryData(String),
    /// 16-byte nonce.
    AuthChallenge([u8; 16]),
    /// 32-byte HMAC.
    AuthResponse([u8; 32]),
    /// One of `AUTH_REJECTED`, `AUTH_ACCEPTED`, `AUTH_TOTP_REQUIRED`.
    AuthResult(u8),
    TotpChallenge,
    /// Six-digit TOTP code.
    TotpResponse(String),
}

/// Mathematical view of a `Packet`.
pub enum PacketView {
    Audio(AudioPacketView),
    Heartbeat(Heartbeat),
    HeartbeatAck(HeartbeatAck),
    Control(ControlPacket),
    Disconnect,
    PttDenied,
    Frequency(FrequencyPacket),
    Mode(ModePacket),
    Smeter(SmeterPacket),
    Spectrum(SpectrumView),
    FullSpectrum(SpectrumView),
    EquipmentStatus(EquipmentStatusView),
    EquipmentCommand(EquipmentCommandView),
    AmplitecPowerTable(AmplitecPowerTableView),
    AudioRx2(AudioPacketView),
    FrequencyRx2(FrequencyPacket),
    ModeRx2(ModePacket),
    SmeterRx2(SmeterPacket),
    SmeterSig(SmeterPacket),
    SmeterMaxBin(SmeterPacket),
    SmeterRx2Sig(SmeterPacket),
    SmeterRx2MaxBin(SmeterPacket),
    SpectrumRx2(SpectrumView),
    FullSpectrumRx2(SpectrumView),
    Spot(SpotView),
    TxProfiles(TxProfilesView),
    AudioYaesu(AudioPacketView),
    AudioBinR(AudioPacketView),
    AudioMultiCh(MultiChannelAudioView),
    YaesuState(YaesuStatePacket),
    FrequencyYaesu(FrequencyPacket),
    YaesuMemoryData(Seq<char>),
    AuthChallenge(Seq<u8>),
    AuthResponse(Seq<u8>),
    AuthResult(u8),
    TotpChallenge,
    TotpResponse(Seq<char>),
}

impl View for Packet {
    type V = PacketView;

    open spec fn view(&self) -> PacketView {
        match self {
            Packet::Audio(p) => PacketView::Audio(p@),
            Packet::Heartbeat(p) => PacketView::Heartbeat(*p),
            Packet::HeartbeatAck(p) => PacketView::HeartbeatAck(*p),
            Packet::Control(p) => PacketView::Control(*p),
            Packet::Disconnect => PacketView::Disconnect,
            Packet::PttDenied => PacketView::PttDenied,
            Packet::Frequency(p) => PacketView::Frequency(*p),
            Packet::Mode(p) => PacketView::Mode(*p),
            Packet::Smeter(p) => PacketView::Smeter(*p),
            Packet::Spectrum(p) => PacketView::Spectrum(p@),
            Packet::FullSpectrum(p) => PacketView::FullSpectrum(p@),
            Packet::EquipmentStatus(p) => PacketView::EquipmentStatus(p@),
            Packet::EquipmentCommand(p) => PacketView::EquipmentCommand(p@),
            Packet::AmplitecPowerTable(p) => PacketView::AmplitecPowerTable(p@),
            Packet::AudioRx2(p) => PacketView::AudioRx2(p@),
            Packet::FrequencyRx2(p) => PacketView::FrequencyRx2(*p),
            Packet::ModeRx2(p) => PacketView::ModeRx2(*p),
            Packet::SmeterRx2(p) => PacketView::SmeterRx2(*p),
            Packet::SmeterSig(p) => PacketView::SmeterSig(*p),
            Packet::SmeterMaxBin(p) => PacketView::SmeterMaxBin(*p),
            Packet::SmeterRx2Sig(p) => PacketView::SmeterRx2Sig(*p),
            Packet::SmeterRx2MaxBin(p) => PacketView::SmeterRx2MaxBin(*p),
            Packet::SpectrumRx2(p) => PacketView::SpectrumRx2(p@),
            Packet::FullSpectrumRx2(p) => PacketView::FullSpectrumRx2(p@),
            Packet::Spot(p) => PacketView::Spot(p@),
            Packet::TxProfiles(p) => PacketView::TxProfiles(p@),
            Packet::AudioYaesu(p) => PacketView::AudioYaesu(p@),
            Packet::AudioBinR(p) => PacketView::AudioBinR(p@),
            Packet::AudioMultiCh(p) => PacketView::AudioMultiCh(p@),
            Packet::YaesuState(p) => PacketView::YaesuState(*p),
            Packet::FrequencyYaesu(p) => PacketView::FrequencyYaesu(*p),
            Packet::YaesuMemoryData(t) => PacketView::YaesuMemoryData(t@),
            Packet::AuthChallenge(n) => PacketView::AuthChallenge(n@),
            Packet::AuthResponse(h) => PacketView::AuthResponse(h@),
            Packet::AuthResult(b) => PacketView::AuthResult(*b),
            Packet::TotpChallenge => PacketView::TotpChallenge,
            Packet::TotpResponse(t) => PacketView::TotpResponse(t@),
        }
    }
}

/// A decoder result with its value wrapped by `f`.
pub open spec fn lift<T>(r: Result<T, ProtocolError>, f: spec_fn(T) -> PacketView) -> Result<
    PacketView,
    ProtocolError,
> {
    match r {
        Ok(v) => Ok(f(v)),
        Err(e) => Err(e),
    }
}

/// A decoded packet seen through its view.
pub open spec fn result_view_packet(r: Result<Packet, ProtocolError>) -> Result<
    PacketView,
    ProtocolError,
> {
    match r {
        Ok(p) => Ok(p@),
        Err(e) => Err(e),
    }
}

/// A text payload: length(2) + UTF-8 bytes.
pub open spec fn decode_text_payload(s: Seq<u8>) -> Result<Seq<char>, ProtocolError> {
    if s.len() < 6 {
        Err(ProtocolError::TooShort { len: s.len() as usize, min: 6 })
    } else if s.len() < 6 + read_be16(s, 4) {
        Err(
            ProtocolError::Truncated {
                len: s.len() as usize,
                needed: (6 + read_be16(s, 4)) as usize,
            },
        )
    } else {
        Ok(lossy_text(s.subrange(6, 6 + read_be16(s, 4))))
    }
}

/// Wire bytes of a text payload sent as type `t`.
pub open spec fn text_payload_bytes(t: PacketType, text: Seq<char>) -> Seq<u8> {
    header_bytes(t, Flags(0)) + be16((encode_utf8(text).len() % 0x1_0000) as u16) + encode_utf8(
        text,
    )
}

impl PacketView {
    /// What decoding `s` as any packet gives: the header selects the packet
    /// kind, whose own decoder then reads the buffer.
    pub open spec fn spec_decode(s: Seq<u8>) -> Result<PacketView, ProtocolError> {
        match Header::spec_decode(s) {
            Err(e) => Err(e),
            Ok(h) => match h.packet_type {
                PacketType::Audio => lift(
                    AudioPacketView::spec_decode(s),
                    |p: AudioPacketView| PacketView::Audio(p),
                ),
                PacketType::Heartbeat => lift(
                    Heartbeat::spec_decode(s),
                    |p: Heartbeat| PacketView::Heartbeat(p),
                ),
                PacketType::HeartbeatAck => lift(
                    HeartbeatAck::spec_decode(s),
                    |p: HeartbeatAck| PacketView::HeartbeatAck(p),
                ),
                PacketType::Control => lift(
                    ControlPacket::spec_decode(s),
                    |p: ControlPacket| PacketView::Control(p),
                ),
                PacketType::Disconnect => Ok(PacketView::Disconnect),
                PacketType::PttDenied => Ok(PacketView::PttDenied),
                PacketType::Frequency => lift(
                    FrequencyPacket::spec_decode(s),
                    |p: FrequencyPacket| PacketView::Frequency(p),
                ),
                PacketType::Mode => lift(
                    ModePacket::spec_decode(s),
                    |p: ModePacket| PacketView::Mode(p),
                ),
                PacketType::Smeter => lift(
                    SmeterPacket::spec_decode(s),
                    |p: SmeterPacket| PacketView::Smeter(p),
                ),
                PacketType::SmeterSig => lift(
                    SmeterPacket::spec_decode(s),
                    |p: SmeterPacket| PacketView::SmeterSig(p),
                ),
                PacketType::SmeterMaxBin => lift(
                    SmeterPacket::spec_decode(s),
                    |p: SmeterPacket| PacketView::SmeterMaxBin(p),
                ),
                PacketType::SmeterRx2Sig => lift(
                    SmeterPacket::spec_decode(s),
                    |p: SmeterPacket| PacketView::SmeterRx2Sig(p),
                ),
                PacketType::SmeterRx2MaxBin => lift(
                    SmeterPacket::spec_decode(s),
                    |p: SmeterPacket| PacketView::SmeterRx2MaxBin(p),
                ),
                PacketType::Spectrum => lift(
                    SpectrumView::spec_decode(s),
                    |p: SpectrumView| PacketView::Spectrum(p),
                ),
                PacketType::FullSpectrum => lift(
                    SpectrumView::spec_decode(s),
                    |p: SpectrumView| PacketView::FullSpectrum(p),
                ),
                PacketType::EquipmentStatus => lift(
                    EquipmentStatusView::spec_decode(s),
                    |p: EquipmentStatusView| PacketView::EquipmentStatus(p),
                ),
                PacketType::EquipmentCommand => lift(
                    EquipmentCommandView::spec_decode(s),
                    |p: EquipmentCommandView| PacketView::EquipmentCommand(p),
                ),
                PacketType::AmplitecPowerTable => lift(
                    AmplitecPowerTableView::spec_decode(s),
                    |p: AmplitecPowerTableView| PacketView::AmplitecPowerTable(p),
                ),
                PacketType::AudioRx2 => lift(
                    AudioPacketView::spec_decode(s),
                    |p: AudioPacketView| PacketView::AudioRx2(p),
                ),
                PacketType::FrequencyRx2 => lift(
                    FrequencyPacket::spec_decode(s),
                    |p: FrequencyPacket| PacketView::FrequencyRx2(p),
                ),
                PacketType::ModeRx2 => lift(
                    ModePacket::spec_decode(s),
                    |p: ModePacket| PacketView::ModeRx2(p),
                ),
                PacketType::SmeterRx2 => lift(
                    SmeterPacket::spec_decode(s),
                    |p: SmeterPacket| PacketView::SmeterRx2(p),
                ),
                PacketType::SpectrumRx2 => lift(
                    SpectrumView::spec_decode(s),
                    |p: SpectrumView| PacketView::SpectrumRx2(p),
                ),
                PacketType::FullSpectrumRx2 => lift(
                    SpectrumView::spec_decode(s),
                    |p: SpectrumView| PacketView::FullSpectrumRx2(p),
                ),
                PacketType::Spot => lift(SpotView::spec_decode(s), |p: SpotView| PacketView::Spot(p)),
                PacketType::TxProfiles => lift(
                    TxProfilesView::spec_decode(s),
                    |p: TxProfilesView| PacketView::TxProfiles(p),
                ),
                PacketType::AudioYaesu => lift(
                    AudioPacketView::spec_decode(s),
                    |p: AudioPacketView| PacketView::AudioYaesu(p),
                ),
                PacketType::AudioBinR => lift(
                    AudioPacketView::spec_decode(s),
                    |p: AudioPacketView| PacketView::AudioBinR(p),
                ),
                PacketType::AudioMultiCh => lift(
                    MultiChannelAudioView::spec_decode(s),
                    |p: MultiChannelAudioView| PacketView::AudioMultiCh(p),
                ),
                PacketType::YaesuState => lift(
                    YaesuStatePacket::spec_decode(s),
                    |p: YaesuStatePacket| PacketView::YaesuState(p),
                ),
                PacketType::FrequencyYaesu => lift(
                    FrequencyPacket::spec_decode(s),
                    |p: FrequencyPacket| PacketView::FrequencyYaesu(p),
                ),
                PacketType::AuthChallenge => if s.len() < 20 {
                    Err(ProtocolError::TooShort { len: s.len() as usize, min: 20 })
                } else {
                    Ok(PacketView::AuthChallenge(s.subrange(4, 20)))
                },
                PacketType::AuthResponse => if s.len() < 36 {
                    Err(ProtocolError::TooShort { len: s.len() as usize, min: 36 })
                } else {
                    Ok(PacketView::AuthResponse(s.subrange(4, 36)))
                },
                PacketType::AuthResult => if s.len() < 5 {
                    Err(ProtocolError::TooShort { len: s.len() as usize, min: 5 })
                } else {
                    Ok(PacketView::AuthResult(s[4]))
                },
                PacketType::TotpChallenge => Ok(PacketView::TotpChallenge),
                PacketType::TotpResponse => lift(
                    decode_text_payload(s),
                    |t: Seq<char>| PacketView::TotpResponse(t),
                ),
                PacketType::YaesuMemoryData => lift(
                    decode_text_payload(s),
                    |t: Seq<char>| PacketView::YaesuMemoryData(t),
                ),
            },
        }
    }

    /// Wire bytes of the packet: the encoding its sender writes.
    pub open spec fn spec_bytes(self) -> Seq<u8> {
        match self {
            PacketView::Audio(p) => p.spec_bytes(PacketType::Audio),
            PacketView::Heartbeat(p) => p.spec_bytes(),
            PacketView::HeartbeatAck(p) => p.spec_bytes(),
            PacketView::Control(p) => p.spec_bytes(),
            PacketView::Disconnect => header_bytes(PacketType::Disconnect, Flags(0)),
            PacketView::PttDenied => header_bytes(PacketType::PttDenied, Flags(0)),
            PacketView::Frequency(p) => p.spec_bytes(PacketType::Frequency),
            PacketView::Mode(p) => p.spec_bytes(PacketType::Mode),
            PacketView::Smeter(p) => p.spec_bytes(PacketType::Smeter),
            PacketView::Spectrum(p) => p.spec_bytes(PacketType::Spectrum),
            PacketView::FullSpectrum(p) => p.spec_bytes(PacketType::FullSpectrum),
            PacketView::EquipmentStatus(p) => p.spec_bytes(),
            PacketView::EquipmentCommand(p) => p.spec_bytes(),
            PacketView::AmplitecPowerTable(p) => p.spec_bytes(),
            PacketView::AudioRx2(p) => p.spec_bytes(PacketType::AudioRx2),
            PacketView::FrequencyRx2(p) => p.spec_bytes(PacketType::FrequencyRx2),
            PacketView::ModeRx2(p) => p.spec_bytes(PacketType::ModeRx2),
            PacketView::SmeterRx2(p) => p.spec_bytes(PacketType::SmeterRx2),
            PacketView::SmeterSig(p) => p.spec_bytes(PacketType::SmeterSig),
            PacketView::SmeterMaxBin(p) => p.spec_bytes(PacketType::SmeterMaxBin),
            PacketView::SmeterRx2Sig(p) => p.spec_bytes(PacketType::SmeterRx2Sig),
            PacketView::SmeterRx2MaxBin(p) => p.spec_bytes(PacketType::SmeterRx2MaxBin),
            PacketView::SpectrumRx2(p) => p.spec_bytes(PacketType::SpectrumRx2),
            PacketView::FullSpectrumRx2(p) => p.spec_bytes(PacketType::FullSpectrumRx2),
            PacketView::Spot(p) => p.spec_bytes(),
            PacketView::TxProfiles(p) => p.spec_bytes(),
            PacketView::AudioYaesu(p) => p.spec_bytes(PacketType::AudioYaesu),
            PacketView::AudioBinR(p) => p.spec_bytes(PacketType::AudioBinR),
            PacketView::AudioMultiCh(p) => p.spec_bytes(),
            PacketView::YaesuState(p) => p.spec_bytes(),
            PacketView::FrequencyYaesu(p) => p.spec_bytes(PacketType::FrequencyYaesu),
            PacketView::YaesuMemoryData(t) => text_payload_bytes(PacketType::YaesuMemoryData, t),
            PacketView::AuthChallenge(n) => header_bytes(PacketType::AuthChallenge, Flags(0)) + n,
            PacketView::AuthResponse(h) => header_bytes(PacketType::AuthResponse, Flags(0)) + h,
            PacketView::AuthResult(b) => header_bytes(PacketType::AuthResult, Flags(0)) + seq![b],
            PacketView::TotpChallenge => header_bytes(PacketType::TotpChallenge, Flags(0)),
            PacketView::TotpResponse(t) => text_payload_bytes(PacketType::TotpResponse, t),
        }
    }

    /// Whether the packet survives encoding: every length fits its length
    /// field, fixed-size payloads have their size, and spectrum rows travel
    /// as u16 bins with a matching bin count.
    pub open spec fn encodable(self) -> bool {
        match self {
            PacketView::Audio(p) => p.opus_data.len() <= 0xFFFF,
            PacketView::AudioRx2(p) => p.opus_data.len() <= 0xFFFF,
            PacketView::AudioYaesu(p) => p.opus_data.len() <= 0xFFFF,
            PacketView::AudioBinR(p) => p.opus_data.len() <= 0xFFFF,
            PacketView::Spectrum(p) => p.wide() && p.num_bins == p.bins.len(),
            PacketView::FullSpectrum(p) => p.wide() && p.num_bins == p.bins.len(),
            PacketView::SpectrumRx2(p) => p.wide() && p.num_bins == p.bins.len(),
            PacketView::FullSpectrumRx2(p) => p.wide() && p.num_bins == p.bins.len(),
            PacketView::EquipmentStatus(p) => p.labels matches Some(l) ==> encode_utf8(l).len()
                <= 0xFFFF,
            PacketView::AmplitecPowerTable(p) => p.max_w.len() == 6 && p.tx_blocked.len() == 6,
            PacketView::Spot(p) => text_fits(p.callsign) && text_fits(p.mode) && text_fits(
                p.spotter,
            ) && text_fits(p.comment),
            PacketView::TxProfiles(p) => p.names.len() <= 255 && profiles_fit(p.names),
            PacketView::AudioMultiCh(p) => p.channels.len() <= 255 && channels_fit(p.channels),
            PacketView::YaesuMemoryData(t) => encode_utf8(t).len() <= 0xFFFF,
            PacketView::TotpResponse(t) => encode_utf8(t).len() <= 0xFFFF,
            PacketView::AuthChallenge(n) => n.len() == 16,
            PacketView::AuthResponse(h) => h.len() == 32,
            _ => true,
        }
    }
}

proof fn lemma_text_payload(t: PacketType, text: Seq<char>)
    requires
        encode_utf8(text).len() <= 0xFFFF,
    ensures
        Header::spec_decode(text_payload_bytes(t, text)) == Ok::<Header, ProtocolError>(
            Header { packet_type: t, flags: Flags(0) },
        ),
        decode_text_payload(text_payload_bytes(t, text)) == Ok::<Seq<char>, ProtocolError>(text),
{
    let s = text_payload_bytes(t, text);
    let h = Header { packet_type: t, flags: Flags(0) };
    h.lemma_roundtrip(s.subrange(4, s.len() as int));
    assert(s =~= h.spec_bytes() + s.subrange(4, s.len() as int));
    let b = encode_utf8(text);
    let n = b.len() as u16;
    lemma_be16(n, s, 4);
    assert(s.subrange(4, 6) =~= be16(n));
    assert(s.subrange(6, 6 + n) =~= b);
    lemma_text_roundtrip(text);
}

#[verifier::spinoff_prover]
#[verifier::rlimit(80)]
proof fn lemma_decode_encoded_audio(p: PacketView)
    requires
        p.encodable(),
        p is Audio,
    ensures
        PacketView::spec_decode(p.spec_bytes()) == Ok::<PacketView, ProtocolError>(p),
{
    let s = p.spec_bytes();
    let e: Seq<u8> = seq![];
    match p {
        PacketView::Audio(q) => {
            q.lemma_roundtrip(PacketType::Audio, e);
            assert(s + e =~= s);
            Header { packet_type: PacketType::Audio, flags: q.flags }.lemma_roundtrip(
                s.subrange(4, s.len() as int),
            );
            assert(s =~= header_bytes(PacketType::Audio, q.flags) + s.subrange(4, s.len() as int));
        },
        _ => {
            assert(false);
        },
    }
}

#[verifier::spinoff_prover]
#[verifier::rlimit(80)]
proof fn lemma_decode_encoded_audio_rx2(p: PacketView)
    requires
        p.encodable(),
        p is AudioRx2,
    ensures
        PacketView::spec_decode(p.spec_bytes()) == Ok::<PacketView, ProtocolError>(p),
{
    let s = p.spec_bytes();
    let e: Seq<u8> = seq![];
    match p {
        PacketView::AudioRx2(q) => {
            q.lemma_roundtrip(PacketType::AudioRx2, e);
            assert(s + e =~= s);
            Header { packet_type: PacketType::AudioRx2, flags: q.flags }.lemma_roundtrip(
                s.subrange(4, s.len() as int),
            );
            assert(s =~= header_bytes(PacketType::AudioRx2, q.flags) + s.subrange(
                4,
                s.len() as int,
            ));
        },
        _ => {
            assert(false);
        },
    }
}

#[verifier::spinoff_prover]
#[verifier::rlimit(80)]
proof fn lemma_decode_encoded_audio_yaesu(p: PacketView)
    requires
        p.encodable(),
        p is AudioYaesu,
    ensures
        PacketView::spec_decode(p.spec_bytes()) == Ok::<PacketView, ProtocolError>(p),
{
    let s = p.spec_bytes();
    let e: Seq<u8> = seq![];
    match p {
        PacketView::AudioYaesu(q) => {
            q.lemma_roundtrip(PacketType::AudioYaesu, e);
            assert(s + e =~= s);
            Header { packet_type: PacketType::AudioYaesu, flags: q.flags }.lemma_roundtrip(
                s.subrange(4, s.len() as int),
            );
            assert(s =~= header_bytes(PacketType::AudioYaesu, q.flags) + s.subrange(
                4,
                s.len() as int,
            ));
        },
        _ => {
            assert(false);
        },
    }
}

#[verifier::spinoff_prover]
#[verifier::rlimit(80)]
proof fn lemma_decode_encoded_audio_bin_r(p: PacketView)
    requires
        p.encodable(),
        p is AudioBinR,
    ensures
        PacketView::spec_decode(p.spec_bytes()) == Ok::<PacketView, ProtocolError>(p),
{
    let s = p.spec_bytes();
    let e: Seq<u8> = seq![];
    match p {
        PacketView::AudioBinR(q) => {
            q.lemma_roundtrip(PacketType::AudioBinR, e);
            assert(s + e =~= s);
            Header { packet_type: PacketType::AudioBinR, flags: q.flags }.lemma_roundtrip(
                s.subrange(4, s.len() as int),
            );
            assert(s =~= header_bytes(PacketType::AudioBinR, q.flags) + s.subrange(
                4,
                s.len() as int,
            ));
        },
        _ => {
            assert(false);
        },
    }
}

#[verifier::spinoff_prover]
#[verifier::rlimit(80)]
proof fn lemma_decode_encoded_audio_multi_ch(p: PacketView)
    requires
        p.encodable(),
        p is AudioMultiCh,
    ensures
        PacketView::spec_decode(p.spec_bytes()) == Ok::<PacketView, ProtocolError>(p),
{
    let s = p.spec_bytes();
    let e: Seq<u8> = seq![];
    match p {
        PacketView::AudioMultiCh(q) => {
            q.lemma_roundtrip(e);
            assert(s + e =~= s);
        },
        _ => {
            assert(false);
        },
    }
}

#[verifier::spinoff_prover]
#[verifier::rlimit(80)]
proof fn lemma_decode_encoded_fixed(p: PacketView)
    requires
        p.encodable(),
        p is Heartbeat || p is HeartbeatAck || p is Control || p is Disconnect || p is PttDenied || p is TotpChallenge || p is Frequency || p is FrequencyRx2 || p is FrequencyYaesu || p is Mode || p is ModeRx2 || p is Smeter || p is SmeterRx2 || p is SmeterSig || p is SmeterMaxBin || p is SmeterRx2Sig || p is SmeterRx2MaxBin,
    ensures
        PacketView::spec_decode(p.spec_bytes()) == Ok::<PacketView, ProtocolError>(p),
{
    let s = p.spec_bytes();
    let e: Seq<u8> = seq![];
    match p {
        PacketView::Heartbeat(q) => {
            q.lemma_roundtrip();
        },
        PacketView::HeartbeatAck(q) => {
            q.lemma_roundtrip();
        },
        PacketView::Control(q) => {
            q.lemma_roundtrip();
        },
        PacketView::Disconnect => {
            Header { packet_type: PacketType::Disconnect, flags: Flags(0) }.lemma_roundtrip(e);
            assert(s + e =~= s);
        },
        PacketView::PttDenied => {
            Header { packet_type: PacketType::PttDenied, flags: Flags(0) }.lemma_roundtrip(e);
            assert(s + e =~= s);
        },
        PacketView::TotpChallenge => {
            Header { packet_type: PacketType::TotpChallenge, flags: Flags(0) }.lemma_roundtrip(e);
            assert(s + e =~= s);
        },
        PacketView::Frequency(q) => {
            q.lemma_roundtrip(PacketType::Frequency);
        },
        PacketView::FrequencyRx2(q) => {
            q.lemma_roundtrip(PacketType::FrequencyRx2);
        },
        PacketView::FrequencyYaesu(q) => {
            q.lemma_roundtrip(PacketType::FrequencyYaesu);
        },
        PacketView::Mode(q) => {
            q.lemma_roundtrip(PacketType::Mode);
        },
        PacketView::ModeRx2(q) => {
            q.lemma_roundtrip(PacketType::ModeRx2);
        },
        PacketView::Smeter(q) => {
            q.lemma_roundtrip(PacketType::Smeter);
        },
        PacketView::SmeterRx2(q) => {
            q.lemma_roundtrip(PacketType::SmeterRx2);
        },
        PacketView::SmeterSig(q) => {
            q.lemma_roundtrip(PacketType::SmeterSig);
        },
        PacketView::SmeterMaxBin(q) => {
            q.lemma_roundtrip(PacketType::SmeterMaxBin);
        },
        PacketView::SmeterRx2Sig(q) => {
            q.lemma_roundtrip(PacketType::SmeterRx2Sig);
        },
        PacketView::SmeterRx2MaxBin(q) => {
            q.lemma_roundtrip(PacketType::SmeterRx2MaxBin);
        },
        _ => {
            assert(false);
        },
    }
}

#[verifier::spinoff_prover]
#[verifier::rlimit(60)]
proof fn lemma_decode_encoded_spectrum_rx1(p: PacketView)
    requires
        p.encodable(),
        p is Spectrum,
    ensures
        PacketView::spec_decode(p.spec_bytes()) == Ok::<PacketView, ProtocolError>(p),
{
    let e: Seq<u8> = seq![];
    if let PacketView::Spectrum(q) = p {
        q.lemma_roundtrip(PacketType::Spectrum, e);
        assert(p.spec_bytes() + e =~= p.spec_bytes());
    }
}

#[verifier::spinoff_prover]
#[verifier::rlimit(60)]
proof fn lemma_decode_encoded_full_spectrum_rx1(p: PacketView)
    requires
        p.encodable(),
        p is FullSpectrum,
    ensures
        PacketView::spec_decode(p.spec_bytes()) == Ok::<PacketView, ProtocolError>(p),
{
    let e: Seq<u8> = seq![];
    if let PacketView::FullSpectrum(q) = p {
        q.lemma_roundtrip(PacketType::FullSpectrum, e);
        assert(p.spec_bytes() + e =~= p.spec_bytes());
    }
}

#[verifier::spinoff_prover]
#[verifier::rlimit(60)]
proof fn lemma_decode_encoded_spectrum_rx2(p: PacketView)
    requires
        p.encodable(),
        p is SpectrumRx2,
    ensures
        PacketView::spec_decode(p.spec_bytes()) == Ok::<PacketView, ProtocolError>(p),
{
    let e: Seq<u8> = seq![];
    if let PacketView::SpectrumRx2(q) = p {
        q.lemma_roundtrip(PacketType::SpectrumRx2, e);
        assert(p.spec_bytes() + e =~= p.spec_bytes());
    }
}

#[verifier::spinoff_prover]
#[verifier::rlimit(60)]
proof fn lemma_decode_encoded_full_spectrum_rx2(p: PacketView)
    requires
        p.encodable(),
        p is FullSpectrumRx2,
    ensures
        PacketView::spec_decode(p.spec_bytes()) == Ok::<PacketView, ProtocolError>(p),
{
    let e: Seq<u8> = seq![];
    if let PacketView::FullSpectrumRx2(q) = p {
        q.lemma_roundtrip(PacketType::FullSpectrumRx2, e);
        assert(p.spec_bytes() + e =~= p.spec_bytes());
    }
}

proof fn lemma_decode_encoded_spectrum(p: PacketView)
    requires
        p.encodable(),
        p is Spectrum || p is FullSpectrum || p is SpectrumRx2 || p is FullSpectrumRx2,
    ensures
        PacketView::spec_decode(p.spec_bytes()) == Ok::<PacketView, ProtocolError>(p),
{
    if p is Spectrum {
        lemma_decode_encoded_spectrum_rx1(p);
    } else if p is FullSpectrum {
        lemma_decode_encoded_full_spectrum_rx1(p);
    } else if p is SpectrumRx2 {
        lemma_decode_encoded_spectrum_rx2(p);
    } else {
        lemma_decode_encoded_full_spectrum_rx2(p);
    }
}

#[verifier::spinoff_prover]
#[verifier::rlimit(80)]
proof fn lemma_decode_encoded_equipment_status(p: PacketView)
    requires
        p.encodable(),
        p is EquipmentStatus,
    ensures
        PacketView::spec_decode(p.spec_bytes()) == Ok::<PacketView, ProtocolError>(p),
{
    let s = p.spec_bytes();
    let e: Seq<u8> = seq![];
    match p {
        PacketView::EquipmentStatus(q) => {
            q.lemma_roundtrip(e);
            assert(s + e =~= s);
        },
        _ => {
            assert(false);
        },
    }
}

#[verifier::spinoff_prover]
#[verifier::rlimit(80)]
proof fn lemma_decode_encoded_equipment_command(p: PacketView)
    requires
        p.encodable(),
        p is EquipmentCommand,
    ensures
        PacketView::spec_decode(p.spec_bytes()) == Ok::<PacketView, ProtocolError>(p),
{
    let s = p.spec_bytes();
    let e: Seq<u8> = seq![];
    match p {
        PacketView::EquipmentCommand(q) => {
            q.lemma_roundtrip();
        },
        _ => {
            assert(false);
        },
    }
}

#[verifier::spinoff_prover]
#[verifier::rlimit(80)]
proof fn lemma_decode_encoded_amplitec_power_table(p: PacketView)
    requires
        p.encodable(),
        p is AmplitecPowerTable,
    ensures
        PacketView::spec_decode(p.spec_bytes()) == Ok::<PacketView, ProtocolError>(p),
{
    let s = p.spec_bytes();
    let e: Seq<u8> = seq![];
    match p {
        PacketView::AmplitecPowerTable(q) => {
            q.lemma_roundtrip(e);
            assert(s + e =~= s);
        },
        _ => {
            assert(false);
        },
    }
}

#[verifier::spinoff_prover]
#[verifier::rlimit(80)]
proof fn lemma_decode_encoded_spot(p: PacketView)
    requires
        p.encodable(),
        p is Spot,
    ensures
        PacketView::spec_decode(p.spec_bytes()) == Ok::<PacketView, ProtocolError>(p),
{
    let s = p.spec_bytes();
    let e: Seq<u8> = seq![];
    match p {
        PacketView::Spot(q) => {
            q.lemma_roundtrip(e);
            assert(s + e =~= s);
        },
        _ => {
            assert(false);
        },
    }
}

#[verifier::spinoff_prover]
#[verifier::rlimit(80)]
proof fn lemma_decode_encoded_tx_profiles(p: PacketView)
    requires
        p.encodable(),
        p is TxProfiles,
    ensures
        PacketView::spec_decode(p.spec_bytes()) == Ok::<PacketView, ProtocolError>(p),
{
    let s = p.spec_bytes();
    let e: Seq<u8> = seq![];
    match p {
        PacketView::TxProfiles(q) => {
            q.lemma_roundtrip(e);
            assert(s + e =~= s);
        },
        _ => {
            assert(false);
        },
    }
}

#[verifier::spinoff_prover]
#[verifier::rlimit(80)]
proof fn lemma_decode_encoded_yaesu_state(p: PacketView)
    requires
        p.encodable(),
        p is YaesuState,
    ensures
        PacketView::spec_decode(p.spec_bytes()) == Ok::<PacketView, ProtocolError>(p),
{
    let s = p.spec_bytes();
    let e: Seq<u8> = seq![];
    match p {
        PacketView::YaesuState(q) => {
            q.lemma_roundtrip();
            let h = Header { packet_type: PacketType::YaesuState, flags: Flags(0) };
            h.lemma_roundtrip(s.subrange(4, s.len() as int));
            assert(s =~= h.spec_bytes() + s.subrange(4, s.len() as int));
        },
        _ => {
            assert(false);
        },
    }
}

#[verifier::spinoff_prover]
#[verifier::rlimit(80)]
proof fn lemma_decode_encoded_yaesu_memory_data(p: PacketView)
    requires
        p.encodable(),
        p is YaesuMemoryData,
    ensures
        PacketView::spec_decode(p.spec_bytes()) == Ok::<PacketView, ProtocolError>(p),
{
    let s = p.spec_bytes();
    let e: Seq<u8> = seq![];
    match p {
        PacketView::YaesuMemoryData(t) => {
            lemma_text_payload(PacketType::YaesuMemoryData, t);
        },
        _ => {
            assert(false);
        },
    }
}

#[verifier::spinoff_prover]
#[verifier::rlimit(80)]
proof fn lemma_decode_encoded_totp_response(p: PacketView)
    requires
        p.encodable(),
        p is TotpResponse,
    ensures
        PacketView::spec_decode(p.spec_bytes()) == Ok::<PacketView, ProtocolError>(p),
{
    let s = p.spec_bytes();
    let e: Seq<u8> = seq![];
    match p {
        PacketView::TotpResponse(t) => {
            lemma_text_payload(PacketType::TotpResponse, t);
        },
        _ => {
            assert(false);
        },
    }
}

#[verifier::spinoff_prover]
#[verifier::rlimit(80)]
proof fn lemma_decode_encoded_auth_challenge(p: PacketView)
    requires
        p.encodable(),
        p is AuthChallenge,
    ensures
        PacketView::spec_decode(p.spec_bytes()) == Ok::<PacketView, ProtocolError>(p),
{
    let s = p.spec_bytes();
    let e: Seq<u8> = seq![];
    match p {
        PacketView::AuthChallenge(n) => {
            let h = Header { packet_type: PacketType::AuthChallenge, flags: Flags(0) };
            h.lemma_roundtrip(n);
            assert(s.subrange(4, 20) =~= n);
        },
        _ => {
            assert(false);
        },
    }
}

#[verifier::spinoff_prover]
#[verifier::rlimit(80)]
proof fn lemma_decode_encoded_auth_response(p: PacketView)
    requires
        p.encodable(),
        p is AuthResponse,
    ensures
        PacketView::spec_decode(p.spec_bytes()) == Ok::<PacketView, ProtocolError>(p),
{
    let s = p.spec_bytes();
    let e: Seq<u8> = seq![];
    match p {
        PacketView::AuthResponse(x) => {
            let h = Header { packet_type: PacketType::AuthResponse, flags: Flags(0) };
            h.lemma_roundtrip(x);
            assert(s.subrange(4, 36) =~= x);
        },
        _ => {
            assert(false);
        },
    }
}

#[verifier::spinoff_prover]
#[verifier::rlimit(80)]
proof fn lemma_decode_encoded_auth_result(p: PacketView)
    requires
        p.encodable(),
        p is AuthResult,
    ensures
        PacketView::spec_decode(p.spec_bytes()) == Ok::<PacketView, ProtocolError>(p),
{
    let s = p.spec_bytes();
    let e: Seq<u8> = seq![];
    match p {
        PacketView::AuthResult(b) => {
            let h = Header { packet_type: PacketType::AuthResult, flags: Flags(0) };
            h.lemma_roundtrip(seq![b]);
        },
        _ => {
            assert(false);
        },
    }
}

/// What a sender encodes, the general decoder gives back: for every packet
/// whose lengths fit their fields, decoding its wire bytes yields the same
/// packet of the same kind.
pub proof fn lemma_decode_encoded(p: PacketView)
    requires
        p.encodable(),
    ensures
        PacketView::spec_decode(p.spec_bytes()) == Ok::<PacketView, ProtocolError>(p),
{
    match p {
        PacketView::Audio(..) => lemma_decode_encoded_audio(p),
        PacketView::AudioRx2(..) => lemma_decode_encoded_audio_rx2(p),
        PacketView::AudioYaesu(..) => lemma_decode_encoded_audio_yaesu(p),
        PacketView::AudioBinR(..) => lemma_decode_encoded_audio_bin_r(p),
        PacketView::AudioMultiCh(..) => lemma_decode_encoded_audio_multi_ch(p),
        PacketView::Heartbeat(..) | PacketView::HeartbeatAck(..) | PacketView::Control(..) | PacketView::Disconnect | PacketView::PttDenied | PacketView::TotpChallenge | PacketView::Frequency(..) | PacketView::FrequencyRx2(..) | PacketView::FrequencyYaesu(..) | PacketView::Mode(..) | PacketView::ModeRx2(..) | PacketView::Smeter(..) | PacketView::SmeterRx2(..) | PacketView::SmeterSig(..) | PacketView::SmeterMaxBin(..) | PacketView::SmeterRx2Sig(..) | PacketView::SmeterRx2MaxBin(..) => lemma_decode_encoded_fixed(p),
        PacketView::Spectrum(..) | PacketView::FullSpectrum(..) | PacketView::SpectrumRx2(..) | PacketView::FullSpectrumRx2(..) => lemma_decode_encoded_spectrum(p),
        PacketView::EquipmentStatus(..) => lemma_decode_encoded_equipment_status(p),
        PacketView::EquipmentCommand(..) => lemma_decode_encoded_equipment_command(p),
        PacketView::AmplitecPowerTable(..) => lemma_decode_encoded_amplitec_power_table(p),
        PacketView::Spot(..) => lemma_decode_encoded_spot(p),
        PacketView::TxProfiles(..) => lemma_decode_encoded_tx_profiles(p),
        PacketView::YaesuState(..) => lemma_decode_encoded_yaesu_state(p),
        PacketView::YaesuMemoryData(..) => lemma_decode_encoded_yaesu_memory_data(p),
        PacketView::TotpResponse(..) => lemma_decode_encoded_totp_response(p),
        PacketView::AuthChallenge(..) => lemma_decode_encoded_auth_challenge(p),
        PacketView::AuthResponse(..) => lemma_decode_encoded_auth_response(p),
        PacketView::AuthResult(..) => lemma_decode_encoded_auth_result(p),
    }
}

/// Decodes a length-prefixed text payload at offset 4.
fn read_text_payload(buf: &[u8]) -> (r: Result<String, ProtocolError>)
    ensures
        match r {
            Ok(t) => decode_text_payload(buf@) == Ok::<Seq<char>, ProtocolError>(t@),
            Err(e) => decode_text_payload(buf@) == Err::<Seq<char>, ProtocolError>(e),
        },
{
    if buf.len() < 6 {
        return Err(ProtocolError::TooShort { len: buf.len(), min: 6 });
    }
    let len = get_be16(buf, 4) as usize;
    if buf.len() - 6 < len {
        return Err(ProtocolError::Truncated { len: buf.len(), needed: 6 + len });
    }
    Ok(text_from_range(buf, 6, 6 + len))
}

impl Packet {
    /// Decodes any packet, dispatching on its header.
    pub fn deserialize(buf: &[u8]) -> (r: Result<Packet, ProtocolError>)
        ensures
            result_view_packet(r) == PacketView::spec_decode(buf@),
    {
        let header = Header::deserialize(buf)?;
        match header.packet_type {
            PacketType::Audio => Ok(Packet::Audio(AudioPacket::deserialize(buf)?)),
            PacketType::Heartbeat => Ok(Packet::Heartbeat(Heartbeat::deserialize(buf)?)),
            PacketType::HeartbeatAck => Ok(Packet::HeartbeatAck(HeartbeatAck::deserialize(buf)?)),
            PacketType::Control => Ok(Packet::Control(ControlPacket::deserialize(buf)?)),
            PacketType::Disconnect => Ok(Packet::Disconnect),
            PacketType::PttDenied => Ok(Packet::PttDenied),
            PacketType::Frequency => Ok(Packet::Frequency(FrequencyPacket::deserialize(buf)?)),
            PacketType::Mode => Ok(Packet::Mode(ModePacket::deserialize(buf)?)),
            PacketType::Smeter => Ok(Packet::Smeter(SmeterPacket::deserialize(buf)?)),
            PacketType::SmeterSig => Ok(Packet::SmeterSig(SmeterPacket::deserialize(buf)?)),
            PacketType::SmeterMaxBin => Ok(Packet::SmeterMaxBin(SmeterPacket::deserialize(buf)?)),
            PacketType::SmeterRx2Sig => Ok(Packet::SmeterRx2Sig(SmeterPacket::deserialize(buf)?)),
            PacketType::SmeterRx2MaxBin => Ok(
                Packet::SmeterRx2MaxBin(SmeterPacket::deserialize(buf)?),
            ),
            PacketType::Spectrum => Ok(Packet::Spectrum(SpectrumPacket::deserialize(buf)?)),
            PacketType::FullSpectrum => Ok(Packet::FullSpectrum(SpectrumPacket::deserialize(buf)?)),
            PacketType::EquipmentStatus => Ok(
                Packet::EquipmentStatus(EquipmentStatusPacket::deserialize(buf)?),
            ),
            PacketType::EquipmentCommand => Ok(
                Packet::EquipmentCommand(EquipmentCommandPacket::deserialize(buf)?),
            ),
            PacketType::AmplitecPowerTable => Ok(
                Packet::AmplitecPowerTable(AmplitecPowerTablePacket::deserialize(buf)?),
            ),
            PacketType::AudioRx2 => Ok(Packet::AudioRx2(AudioPacket::deserialize(buf)?)),
            PacketType::FrequencyRx2 => Ok(
                Packet::FrequencyRx2(FrequencyPacket::deserialize(buf)?),
            ),
            PacketType::ModeRx2 => Ok(Packet::ModeRx2(ModePacket::deserialize(buf)?)),
            PacketType::SmeterRx2 => Ok(Packet::SmeterRx2(SmeterPacket::deserialize(buf)?)),
            PacketType::SpectrumRx2 => Ok(Packet::SpectrumRx2(SpectrumPacket::deserialize(buf)?)),
            PacketType::FullSpectrumRx2 => Ok(
                Packet::FullSpectrumRx2(SpectrumPacket::deserialize(buf)?),
            ),
            PacketType::Spot => Ok(Packet::Spot(SpotPacket::deserialize(buf)?)),
            PacketType::TxProfiles => Ok(Packet::TxProfiles(TxProfilesPacket::deserialize(buf)?)),
            PacketType::AudioYaesu => Ok(Packet::AudioYaesu(AudioPacket::deserialize(buf)?)),
            PacketType::AudioBinR => Ok(Packet::AudioBinR(AudioPacket::deserialize(buf)?)),
            PacketType::AudioMultiCh => Ok(
                Packet::AudioMultiCh(MultiChannelAudioPacket::deserialize(buf)?),
            ),
            PacketType::YaesuState => Ok(Packet::YaesuState(YaesuStatePacket::deserialize(buf)?)),
            PacketType::FrequencyYaesu => Ok(
                Packet::FrequencyYaesu(FrequencyPacket::deserialize(buf)?),
            ),
            PacketType::AuthChallenge => {
                if buf.len() < 20 {
                    return Err(ProtocolError::TooShort { len: buf.len(), min: 20 });
                }
                let mut nonce = [0u8; 16];
                for i in 0..16
                    invariant
                        buf@.len() >= 20,
                        nonce@.len() == 16,
                        forall|k: int| 0 <= k < i ==> nonce@[k] == buf@[4 + k],
                {
                    nonce[i] = buf[4 + i];
                }
                assert(nonce@ =~= buf@.subrange(4, 20));
                Ok(Packet::AuthChallenge(nonce))
            },
            PacketType::AuthResponse => {
                if buf.len() < 36 {
                    return Err(ProtocolError::TooShort { len: buf.len(), min: 36 });
                }
                let mut hmac = [0u8; 32];
                for i in 0..32
                    invariant
                        buf@.len() >= 36,
                        hmac@.len() == 32,
                        forall|k: int| 0 <= k < i ==> hmac@[k] == buf@[4 + k],
                {
                    hmac[i] = buf[4 + i];
                }
                assert(hmac@ =~= buf@.subrange(4, 36));
                Ok(Packet::AuthResponse(hmac))
            },
            PacketType::AuthResult => {
                if buf.len() < 5 {
                    return Err(ProtocolError::TooShort { len: buf.len(), min: 5 });
                }
                Ok(Packet::AuthResult(buf[4]))
            },
            PacketType::TotpChallenge => Ok(Packet::TotpChallenge),
            PacketType::TotpResponse => Ok(Packet::TotpResponse(read_text_payload(buf)?)),
            PacketType::YaesuMemoryData => Ok(Packet::YaesuMemoryData(read_text_payload(buf)?)),
        }
    }
}

} // verus!
