use vstd::prelude::*;

verus! {

/// Packet type identifiers carried in byte 2 of every header.
#[derive(Debug, Clone, Copy, PartialEq, Eq, Structural)]
pub enum PacketType {
    Audio,
    Heartbeat,
    HeartbeatAck,
    Control,
    Disconnect,
    PttDenied,
    Frequency,
    Mode,
    Smeter,
    Spectrum,
    /// Full DDC spectrum row for waterfall history (same format as Spectrum)
    FullSpectrum,
    /// Equipment status (server → client)
    EquipmentStatus,
    /// Equipment command (client → server)
    EquipmentCommand,
    /// RX2 audio (server → client, same format as Audio)
    AudioRx2,
    /// RX2 frequency (bidirectional, same format as Frequency)
    FrequencyRx2,
    /// RX2 mode (bidirectional, same format as Mode)
    ModeRx2,
    /// RX2 S-meter (server → client, same format as Smeter)
    SmeterRx2,
    /// RX2 spectrum (server → client, same format as Spectrum)
    SpectrumRx2,
    /// RX2 full spectrum row for waterfall (same format as FullSpectrum)
    FullSpectrumRx2,
    /// DX cluster spot (server → client)
    Spot,
    /// TX profile list with names (server → client)
    TxProfiles,
    /// Yaesu audio (server → client, same format as Audio)
    AudioYaesu,
    /// Yaesu radio state (server → client)
    YaesuState,
    /// Yaesu frequency set (client → server, same format as Frequency)
    FrequencyYaesu,
    /// Binaural right channel audio (server → client, same format as Audio) [deprecated]
    AudioBinR,
    /// Multi-channel audio: 1-4 mono Opus frames bundled in one packet
    AudioMultiCh,
    /// RX1 S-meter Sig source (server → client, same SmeterPacket format).
    SmeterSig,
    /// RX1 S-meter MaxBin source (server → client, same SmeterPacket format).
    SmeterMaxBin,
    /// RX2 S-meter Sig source (server → client). Bit 4 in SmeterSources.
    SmeterRx2Sig,
    /// RX2 S-meter MaxBin source (server → client). Bit 6 in SmeterSources.
    SmeterRx2MaxBin,
    /// Yaesu memory data (server → client, tab-separated text)
    YaesuMemoryData,
    /// Amplitec power-cap table (server → client push, client → server update).
    AmplitecPowerTable,
    /// Authentication challenge (server → client, 16-byte nonce)
    AuthChallenge,
    /// Authentication response (client → server, 32-byte HMAC)
    AuthResponse,
    /// Authentication result (server → client, 1 byte: 0=rejected, 1=accepted, 2=totp_required)
    AuthResult,
    /// TOTP challenge (server → client, signals that TOTP code is needed)
    TotpChallenge,
    /// TOTP response (client → server, 6-digit code as UTF-8 string)
    TotpResponse,
}

impl PacketType {
    /// The wire code of this identifier.
    pub open spec fn spec_code(self) -> u8 {
        match self {
            PacketType::Audio => 0x01,
            PacketType::Heartbeat => 0x02,
            PacketType::HeartbeatAck => 0x03,
            PacketType::Control => 0x04,
            PacketType::Disconnect => 0x05,
            PacketType::PttDenied => 0x06,
            PacketType::Frequency => 0x07,
            PacketType::Mode => 0x08,
            PacketType::Smeter => 0x09,
            PacketType::Spectrum => 0x0A,
            PacketType::FullSpectrum => 0x0B,
            PacketType::EquipmentStatus => 0x0C,
            PacketType::EquipmentCommand => 0x0D,
            PacketType::AudioRx2 => 0x0E,
            PacketType::FrequencyRx2 => 0x0F,
            PacketType::ModeRx2 => 0x10,
            PacketType::SmeterRx2 => 0x11,
            PacketType::SpectrumRx2 => 0x12,
            PacketType::FullSpectrumRx2 => 0x13,
            PacketType::Spot => 0x14,
            PacketType::TxProfiles => 0x15,
            PacketType::AudioYaesu => 0x16,
            PacketType::YaesuState => 0x17,
            PacketType::FrequencyYaesu => 0x18,
            PacketType::AudioBinR => 0x1A,
            PacketType::AudioMultiCh => 0x1B,
            PacketType::SmeterSig => 0x1C,
            PacketType::SmeterMaxBin => 0x1D,
            PacketType::SmeterRx2Sig => 0x1E,
            PacketType::SmeterRx2MaxBin => 0x1F,
            PacketType::YaesuMemoryData => 0x19,
            PacketType::AmplitecPowerTable => 0x20,
            PacketType::AuthChallenge => 0x30,
            PacketType::AuthResponse => 0x31,
            PacketType::AuthResult => 0x32,
            PacketType::TotpChallenge => 0x33,
            PacketType::TotpResponse => 0x34,
        }
    }

    /// The identifier carried by wire code `v`, if any.
    pub open spec fn spec_from_code(v: u8) -> Option<PacketType> {
        match v {
            0x01 => Some(PacketType::Audio),
            0x02 => Some(PacketType::Heartbeat),
            0x03 => Some(PacketType::HeartbeatAck),
            0x04 => Some(PacketType::Control),
            0x05 => Some(PacketType::Disconnect),
            0x06 => Some(PacketType::PttDenied),
            0x07 => Some(PacketType::Frequency),
            0x08 => Some(PacketType::Mode),
            0x09 => Some(PacketType::Smeter),
            0x0A => Some(PacketType::Spectrum),
            0x0B => Some(PacketType::FullSpectrum),
            0x0C => Some(PacketType::EquipmentStatus),
            0x0D => Some(PacketType::EquipmentCommand),
            0x0E => Some(PacketType::AudioRx2),
            0x0F => Some(PacketType::FrequencyRx2),
            0x10 => Some(PacketType::ModeRx2),
            0x11 => Some(PacketType::SmeterRx2),
            0x12 => Some(PacketType::SpectrumRx2),
            0x13 => Some(PacketType::FullSpectrumRx2),
            0x14 => Some(PacketType::Spot),
            0x15 => Some(PacketType::TxProfiles),
            0x16 => Some(PacketType::AudioYaesu),
            0x17 => Some(PacketType::YaesuState),
            0x18 => Some(PacketType::FrequencyYaesu),
            0x19 => Some(PacketType::YaesuMemoryData),
            0x1A => Some(PacketType::AudioBinR),
            0x1B => Some(PacketType::AudioMultiCh),
            0x1C => Some(PacketType::SmeterSig),
            0x1D => Some(PacketType::SmeterMaxBin),
            0x1E => Some(PacketType::SmeterRx2Sig),
            0x1F => Some(PacketType::SmeterRx2MaxBin),
            0x20 => Some(PacketType::AmplitecPowerTable),
            0x30 => Some(PacketType::AuthChallenge),
            0x31 => Some(PacketType::AuthResponse),
            0x32 => Some(PacketType::AuthResult),
            0x33 => Some(PacketType::TotpChallenge),
            0x34 => Some(PacketType::TotpResponse),
            _ => None,
        }
    }

    /// The wire code of this identifier.
    pub fn code(self) -> (r: u8)
        ensures
            r == self.spec_code(),
    {
        match self {
            PacketType::Audio => 0x01,
            PacketType::Heartbeat => 0x02,
            PacketType::HeartbeatAck => 0x03,
            PacketType::Control => 0x04,
            PacketType::Disconnect => 0x05,
            PacketType::PttDenied => 0x06,
            PacketType::Frequency => 0x07,
            PacketType::Mode => 0x08,
            PacketType::Smeter => 0x09,
            PacketType::Spectrum => 0x0A,
            PacketType::FullSpectrum => 0x0B,
            PacketType::EquipmentStatus => 0x0C,
            PacketType::EquipmentCommand => 0x0D,
            PacketType::AudioRx2 => 0x0E,
            PacketType::FrequencyRx2 => 0x0F,
            PacketType::ModeRx2 => 0x10,
            PacketType::SmeterRx2 => 0x11,
            PacketType::SpectrumRx2 => 0x12,
            PacketType::FullSpectrumRx2 => 0x13,
            PacketType::Spot => 0x14,
            PacketType::TxProfiles => 0x15,
            PacketType::AudioYaesu => 0x16,
            PacketType::YaesuState => 0x17,
            PacketType::FrequencyYaesu => 0x18,
            PacketType::AudioBinR => 0x1A,
            PacketType::AudioMultiCh => 0x1B,
            PacketType::SmeterSig => 0x1C,
            PacketType::SmeterMaxBin => 0x1D,
            PacketType::SmeterRx2Sig => 0x1E,
            PacketType::SmeterRx2MaxBin => 0x1F,
            PacketType::YaesuMemoryData => 0x19,
            PacketType::AmplitecPowerTable => 0x20,
            PacketType::AuthChallenge => 0x30,
            PacketType::AuthResponse => 0x31,
            PacketType::AuthResult => 0x32,
            PacketType::TotpChallenge => 0x33,
            PacketType::TotpResponse => 0x34,
        }
    }

    /// Decodes a wire code; `None` for codes that name no identifier.
    pub fn from_u8(v: u8) -> (r: Option<PacketType>)
        ensures
            r == Self::spec_from_code(v),
    {
        match v {
            0x01 => Some(PacketType::Audio),
            0x02 => Some(PacketType::Heartbeat),
            0x03 => Some(PacketType::HeartbeatAck),
            0x04 => Some(PacketType::Control),
            0x05 => Some(PacketType::Disconnect),
            0x06 => Some(PacketType::PttDenied),
            0x07 => Some(PacketType::Frequency),
            0x08 => Some(PacketType::Mode),
            0x09 => Some(PacketType::Smeter),
            0x0A => Some(PacketType::Spectrum),
            0x0B => Some(PacketType::FullSpectrum),
            0x0C => Some(PacketType::EquipmentStatus),
            0x0D => Some(PacketType::EquipmentCommand),
            0x0E => Some(PacketType::AudioRx2),
            0x0F => Some(PacketType::FrequencyRx2),
            0x10 => Some(PacketType::ModeRx2),
            0x11 => Some(PacketType::SmeterRx2),
            0x12 => Some(PacketType::SpectrumRx2),
            0x13 => Some(PacketType::FullSpectrumRx2),
            0x14 => Some(PacketType::Spot),
            0x15 => Some(PacketType::TxProfiles),
            0x16 => Some(PacketType::AudioYaesu),
            0x17 => Some(PacketType::YaesuState),
            0x18 => Some(PacketType::FrequencyYaesu),
            0x19 => Some(PacketType::YaesuMemoryData),
            0x1A => Some(PacketType::AudioBinR),
            0x1B => Some(PacketType::AudioMultiCh),
            0x1C => Some(PacketType::SmeterSig),
            0x1D => Some(PacketType::SmeterMaxBin),
            0x1E => Some(PacketType::SmeterRx2Sig),
            0x1F => Some(PacketType::SmeterRx2MaxBin),
            0x20 => Some(PacketType::AmplitecPowerTable),
            0x30 => Some(PacketType::AuthChallenge),
            0x31 => Some(PacketType::AuthResponse),
            0x32 => Some(PacketType::AuthResult),
            0x33 => Some(PacketType::TotpChallenge),
            0x34 => Some(PacketType::TotpResponse),
            _ => None,
        }
    }

    /// Every identifier decodes back from its own code, and a code that
    /// decodes names the identifier whose code it is.
    pub proof fn lemma_code_roundtrip(self, v: u8)
        ensures
            Self::spec_from_code(self.spec_code()) == Some(self),
            Self::spec_from_code(v) matches Some(t) ==> t.spec_code() == v,
    {
    }
}

/// Control command identifiers carried in a `ControlPacket`.
#[derive(Debug, Clone, Copy, PartialEq, Eq, Structural)]
pub enum ControlId {
    /// RX1 AF gain (value 0-100, CAT: ZZLA)
    Rx1AfGain,
    /// Power on/off (value 0/1, CAT: ZZPS)
    PowerOnOff,
    /// TX Profile index (value 0-99, CAT: ZZTP)
    TxProfile,
    /// Noise Reduction level (value 0-4: 0=off, 1=NR1, 2=NR2, 3=NR3, 4=NR4, CAT: ZZNE)
    NoiseReduction,
    /// Auto Notch Filter on/off (value 0/1, CAT: ZZNT)
    AutoNotchFilter,
    /// Drive level (value 0-100, CAT: ZZPC)
    DriveLevel,
    /// Spectrum enable (value 0=off, 1=on)
    SpectrumEnable,
    /// Spectrum FPS (value 5-30)
    SpectrumFps,
    /// Spectrum zoom level (value: zoom × 10 as u16, e.g. 10=1x, 320=32x, 10240=1024x)
    SpectrumZoom,
    /// Spectrum pan position (value: (pan + 0.5) × 10000 as u16, 5000=center)
    SpectrumPan,
    /// Filter low cut (value: Hz offset from VFO as i16 cast to u16)
    FilterLow,
    /// Filter high cut (value: Hz offset from VFO as i16 cast to u16)
    FilterHigh,
    /// Thetis starting indicator (server→client, value 0/1)
    ThetisStarting,
    /// RX2 enable on/off (value 0/1)
    Rx2Enable,
    /// RX2 AF gain (value 0-100, CAT: ZZLB)
    Rx2AfGain,
    /// RX2 spectrum zoom (same encoding as SpectrumZoom)
    Rx2SpectrumZoom,
    /// RX2 spectrum pan (same encoding as SpectrumPan)
    Rx2SpectrumPan,
    /// RX2 filter low cut (same encoding as FilterLow)
    Rx2FilterLow,
    /// RX2 filter high cut (same encoding as FilterHigh)
    Rx2FilterHigh,
    /// VFO sync on/off (value 0/1: VFO-B follows VFO-A frequency)
    VfoSync,
    /// RX2 spectrum enable (value 0=off, 1=on)
    Rx2SpectrumEnable,
    /// RX2 spectrum FPS (value 5-30)
    Rx2SpectrumFps,
    /// RX2 noise reduction (same encoding as NoiseReduction)
    Rx2NoiseReduction,
    /// RX2 auto notch filter (value 0/1)
    Rx2AutoNotchFilter,
    /// VFO A⇔B swap (write-only trigger, value ignored; maps to ZZVS2)
    VfoSwap,
    /// Spectrum max bins per packet (value: max bins as u16, 0=server default)
    SpectrumMaxBins,
    /// RX2 spectrum max bins per packet (same encoding as SpectrumMaxBins)
    Rx2SpectrumMaxBins,
    /// FFT size for spectrum processing (value: size in K, e.g. 32=32768, 65=65536, 131=131072, 262=262144)
    SpectrumFftSize,
    /// RX2 FFT size for spectrum processing (same encoding as SpectrumFftSize)
    Rx2SpectrumFftSize,
    /// Spectrum bin depth: 8 = u8 bins (1 byte), 16 = u16 bins (2 bytes). Default 8.
    SpectrumBinDepth,
    /// TX Monitor on/off (value 0/1, CAT: ZZMO, TCI: MON_ENABLE)
    MonitorOn,
    /// Thetis TUNE on/off (value 0/1, CAT: ZZTU)
    ThetisTune,
    /// Yaesu stream enable (value 0/1: client requests Yaesu audio+state on/off)
    YaesuEnable,
    /// Yaesu PTT (value 0/1: TX0/TX1 via Yaesu CAT)
    YaesuPtt,
    /// Yaesu frequency set (uses FrequencyPacket, not ControlPacket)
    YaesuFreq,
    /// Yaesu mic gain (value: gain × 10, e.g. 200 = 20.0x)
    YaesuMicGain,
    /// Yaesu operating mode (value: internal mode number)
    YaesuMode,
    /// Yaesu read all memories (value: ignored)
    YaesuReadMemories,
    /// Yaesu recall memory channel (value: channel number 1-99)
    YaesuRecallMemory,
    /// Yaesu write all memories to radio (value: ignored)
    YaesuWriteMemories,
    /// Yaesu select VFO (value: 0=VFO A, 1=VFO B, 2=swap)
    YaesuSelectVfo,
    /// Yaesu squelch (value: 0-255)
    YaesuSquelch,
    /// Yaesu RF gain (value: 0-255)
    YaesuRfGain,
    /// Yaesu mic gain (value: 0-100) — radio's own mic gain, not ThetisLink TX gain
    YaesuRadioMicGain,
    /// Yaesu RF power (value: 0-100)
    YaesuRfPower,
    /// Yaesu raw CAT button (value: button ID, see YAESU_BUTTONS)
    YaesuButton,
    /// Yaesu read all EX menu settings (value: ignored)
    YaesuReadMenus,
    /// Yaesu set EX menu item (value: menu number, P2 in separate data packet)
    YaesuSetMenu,
    /// AGC mode (value: 0=off, 1=long, 2=slow, 3=med, 4=fast, 5=custom; TCI: agc_mode)
    AgcMode,
    /// AGC gain (value: 0-120; TCI: agc_gain)
    AgcGain,
    /// RIT enable (value: 0/1; TCI: rit_enable)
    RitEnable,
    /// RIT offset in Hz (value: i16 cast to u16; TCI: rit_offset)
    RitOffset,
    /// XIT enable (value: 0/1; TCI: xit_enable)
    XitEnable,
    /// XIT offset in Hz (value: i16 cast to u16; TCI: xit_offset)
    XitOffset,
    /// Squelch enable (value: 0/1; TCI: sql_enable)
    SqlEnable,
    /// Squelch level (value: 0-160; TCI: sql_level)
    SqlLevel,
    /// Noise Blanker enable (value: 0/1; TCI: rx_nb_enable)
    NoiseBlanker,
    /// CW keyer speed (value: 1-60 WPM; TCI: cw_keyer_speed)
    CwKeyerSpeed,
    /// VFO lock (value: 0/1; TCI: vfo_lock)
    VfoLock,
    /// Binaural enable (value: 0/1; TCI: rx_bin_enable)
    Binaural,
    /// Audio Peak Filter enable (value: 0/1; TCI: rx_apf_enable)
    ApfEnable,
    /// RX2 AGC mode (same encoding as AgcMode)
    Rx2AgcMode,
    /// RX2 AGC gain (same encoding as AgcGain)
    Rx2AgcGain,
    /// RX2 Squelch enable (same encoding as SqlEnable)
    Rx2SqlEnable,
    /// RX2 Squelch level (same encoding as SqlLevel)
    Rx2SqlLevel,
    /// RX2 Noise Blanker enable (same encoding as NoiseBlanker)
    Rx2NoiseBlanker,
    /// RX2 Binaural enable (same encoding as Binaural)
    Rx2Binaural,
    /// RX2 Audio Peak Filter enable (same encoding as ApfEnable)
    Rx2ApfEnable,
    /// RX2 VFO lock (value: 0/1; TCI: vfo_lock:0,1)
    Rx2VfoLock,
    /// Tune drive level (value: 0-100; TCI: tune_drive)
    TuneDrive,
    /// Monitor volume in dB (value: i8 as u16, typically -40..0; TCI: mon_volume)
    MonitorVolume,
    /// Trigger server-side diversity auto-null (value: 1=start)
    DiversityAutoNull,
    /// AGC Auto mode RX1 (value: 0=off, 1=on)
    AgcAutoRx1,
    /// AGC Auto mode RX2 (value: 0=off, 1=on)
    AgcAutoRx2,
    /// DDC sample rate RX1 (value: rate in kHz, e.g. 384 = 384000 Hz).
    DdcSampleRateRx1,
    /// DDC sample rate RX2 (zelfde encoding als DdcSampleRateRx1).
    DdcSampleRateRx2,
    /// Diversity enable (value: 0=off, 1=on)
    DiversityEnable,
    /// Diversity reference source (value: 0=RX2, 1=RX1)
    DiversityRef,
    /// Diversity RX source (value: 0=RX1+RX2, 1=RX1, 2=RX2)
    DiversitySource,
    /// Diversity RX1 gain (value: gain × 1000, e.g. 2500 = 2.500)
    DiversityGainRx1,
    /// Diversity RX2 gain (value: gain × 1000, e.g. 2500 = 2.500)
    DiversityGainRx2,
    /// Diversity phase (value: phase × 100 + 18000, e.g. 18000=0°, 0=-180°, 36000=+180°)
    DiversityPhase,
    /// Read diversity state from Thetis (value: ignored)
    DiversityRead,
    /// Diversity GainMulti — gates per-RX gain max (value: multi × 100, range 100..1000 = 1.00..10.00).
    DiversityGainMulti,
    /// Global mute (value: 0/1; TCI: mute)
    Mute,
    /// RX mute (value: 0/1; TCI: rx_mute:0)
    RxMute,
    /// Manual Notch Filter enable (value: 0/1; TCI: rx_nf_enable:0)
    ManualNotchFilter,
    /// RX Balance L/R pan (value: i8 -40..+40 as i16 cast to u16; TCI: rx_balance:0,0)
    RxBalance,
    /// CW keyer key down/up (value: bit 0 = pressed, bits 1-15 = duration_ms; 0 = no duration)
    CwKey,
    /// CW macro stop (value: ignored; TCI: cw_macros_stop)
    CwMacroStop,
    /// RX2 Manual Notch Filter enable (value: 0/1; TCI: rx_nf_enable:1)
    Rx2ManualNotchFilter,
    /// Thetis SWR (value: SWR × 100, e.g. 150 = 1.50:1; server → client broadcast during TX)
    ThetisSwr,
    /// Audio routing mode (0=Mono RX1→L+R, 1=Binaural RX1L+RX1R, 2=Split RX1→L RX2→R)
    AudioMode,
    /// Per-client setup-vink "Allow zoom below 2× (waterfall smear during tune)".
    AllowZoomBelow2x,
    /// Per-client S-meter source-subscription bitmap. Each bit toggles emission
    SmeterSources,
    /// DX-spot stream opt-out (value 0=off, 1=on). Default ON. Wanneer OFF
    DxSpotsEnabled,
}

impl ControlId {
    /// The wire code of this identifier.
    pub open spec fn spec_code(self) -> u8 {
        match self {
            ControlId::Rx1AfGain => 0x01,
            ControlId::PowerOnOff => 0x02,
            ControlId::TxProfile => 0x03,
            ControlId::NoiseReduction => 0x04,
            ControlId::AutoNotchFilter => 0x05,
            ControlId::DriveLevel => 0x06,
            ControlId::SpectrumEnable => 0x07,
            ControlId::SpectrumFps => 0x08,
            ControlId::SpectrumZoom => 0x09,
            ControlId::SpectrumPan => 0x0A,
            ControlId::FilterLow => 0x0B,
            ControlId::FilterHigh => 0x0C,
            ControlId::ThetisStarting => 0x0D,
            ControlId::Rx2Enable => 0x0E,
            ControlId::Rx2AfGain => 0x0F,
            ControlId::Rx2SpectrumZoom => 0x10,
            ControlId::Rx2SpectrumPan => 0x11,
            ControlId::Rx2FilterLow => 0x12,
            ControlId::Rx2FilterHigh => 0x13,
            ControlId::VfoSync => 0x14,
            ControlId::Rx2SpectrumEnable => 0x15,
            ControlId::Rx2SpectrumFps => 0x16,
            ControlId::Rx2NoiseReduction => 0x17,
            ControlId::Rx2AutoNotchFilter => 0x18,
            ControlId::VfoSwap => 0x19,
            ControlId::SpectrumMaxBins => 0x1A,
            ControlId::Rx2SpectrumMaxBins => 0x1B,
            ControlId::SpectrumFftSize => 0x1C,
            ControlId::Rx2SpectrumFftSize => 0x3F,
            ControlId::SpectrumBinDepth => 0x1D,
            ControlId::MonitorOn => 0x1E,
            ControlId::ThetisTune => 0x1F,
            ControlId::YaesuEnable => 0x20,
            ControlId::YaesuPtt => 0x21,
            ControlId::YaesuFreq => 0x22,
            ControlId::YaesuMicGain => 0x23,
            ControlId::YaesuMode => 0x24,
            ControlId::YaesuReadMemories => 0x25,
            ControlId::YaesuRecallMemory => 0x26,
            ControlId::YaesuWriteMemories => 0x27,
            ControlId::YaesuSelectVfo => 0x28,
            ControlId::YaesuSquelch => 0x29,
            ControlId::YaesuRfGain => 0x2A,
            ControlId::YaesuRadioMicGain => 0x2B,
            ControlId::YaesuRfPower => 0x2C,
            ControlId::YaesuButton => 0x2D,
            ControlId::YaesuReadMenus => 0x2E,
            ControlId::YaesuSetMenu => 0x2F,
            ControlId::AgcMode => 0x30,
            ControlId::AgcGain => 0x31,
            ControlId::RitEnable => 0x32,
            ControlId::RitOffset => 0x33,
            ControlId::XitEnable => 0x34,
            ControlId::XitOffset => 0x35,
            ControlId::SqlEnable => 0x36,
            ControlId::SqlLevel => 0x37,
            ControlId::NoiseBlanker => 0x38,
            ControlId::CwKeyerSpeed => 0x39,
            ControlId::VfoLock => 0x3A,
            ControlId::Binaural => 0x3B,
            ControlId::ApfEnable => 0x3C,
            ControlId::Rx2AgcMode => 0x50,
            ControlId::Rx2AgcGain => 0x51,
            ControlId::Rx2SqlEnable => 0x52,
            ControlId::Rx2SqlLevel => 0x53,
            ControlId::Rx2NoiseBlanker => 0x54,
            ControlId::Rx2Binaural => 0x55,
            ControlId::Rx2ApfEnable => 0x56,
            ControlId::Rx2VfoLock => 0x57,
            ControlId::TuneDrive => 0x58,
            ControlId::MonitorVolume => 0x59,
            ControlId::DiversityAutoNull => 0x4A,
            ControlId::AgcAutoRx1 => 0x48,
            ControlId::AgcAutoRx2 => 0x49,
            ControlId::DdcSampleRateRx1 => 0x3D,
            ControlId::DdcSampleRateRx2 => 0x3E,
            ControlId::DiversityEnable => 0x40,
            ControlId::DiversityRef => 0x41,
            ControlId::DiversitySource => 0x42,
            ControlId::DiversityGainRx1 => 0x43,
            ControlId::DiversityGainRx2 => 0x44,
            ControlId::DiversityPhase => 0x45,
            ControlId::DiversityRead => 0x46,
            ControlId::DiversityGainMulti => 0x47,
            ControlId::Mute => 0x5A,
            ControlId::RxMute => 0x5B,
            ControlId::ManualNotchFilter => 0x5C,
            ControlId::RxBalance => 0x5D,
            ControlId::CwKey => 0x5E,
            ControlId::CwMacroStop => 0x5F,
            ControlId::Rx2ManualNotchFilter => 0x60,
            ControlId::ThetisSwr => 0x61,
            ControlId::AudioMode => 0x62,
            ControlId::AllowZoomBelow2x => 0x63,
            ControlId::SmeterSources => 0x64,
            ControlId::DxSpotsEnabled => 0x65,
        }
    }

    /// The identifier carried by wire code `v`, if any.
    pub open spec fn spec_from_code(v: u8) -> Option<ControlId> {
        match v {
            0x01 => Some(ControlId::Rx1AfGain),
            0x02 => Some(ControlId::PowerOnOff),
            0x03 => Some(ControlId::TxProfile),
            0x04 => Some(ControlId::NoiseReduction),
            0x05 => Some(ControlId::AutoNotchFilter),
            0x06 => Some(ControlId::DriveLevel),
            0x07 => Some(ControlId::SpectrumEnable),
            0x08 => Some(ControlId::SpectrumFps),
            0x09 => Some(ControlId::SpectrumZoom),
            0x0A => Some(ControlId::SpectrumPan),
            0x0B => Some(ControlId::FilterLow),
            0x0C => Some(ControlId::FilterHigh),
            0x0D => Some(ControlId::ThetisStarting),
            0x0E => Some(ControlId::Rx2Enable),
            0x0F => Some(ControlId::Rx2AfGain),
            0x10 => Some(ControlId::Rx2SpectrumZoom),
            0x11 => Some(ControlId::Rx2SpectrumPan),
            0x12 => Some(ControlId::Rx2FilterLow),
            0x13 => Some(ControlId::Rx2FilterHigh),
            0x14 => Some(ControlId::VfoSync),
            0x15 => Some(ControlId::Rx2SpectrumEnable),
            0x16 => Some(ControlId::Rx2SpectrumFps),
            0x17 => Some(ControlId::Rx2NoiseReduction),
            0x18 => Some(ControlId::Rx2AutoNotchFilter),
            0x19 => Some(ControlId::VfoSwap),
            0x1A => Some(ControlId::SpectrumMaxBins),
            0x1B => Some(ControlId::Rx2SpectrumMaxBins),
            0x1C => Some(ControlId::SpectrumFftSize),
            0x1D => Some(ControlId::SpectrumBinDepth),
            0x1E => Some(ControlId::MonitorOn),
            0x1F => Some(ControlId::ThetisTune),
            0x20 => Some(ControlId::YaesuEnable),
            0x21 => Some(ControlId::YaesuPtt),
            0x22 => Some(ControlId::YaesuFreq),
            0x23 => Some(ControlId::YaesuMicGain),
            0x24 => Some(ControlId::YaesuMode),
            0x25 => Some(ControlId::YaesuReadMemories),
            0x26 => Some(ControlId::YaesuRecallMemory),
            0x27 => Some(ControlId::YaesuWriteMemories),
            0x28 => Some(ControlId::YaesuSelectVfo),
            0x29 => Some(ControlId::YaesuSquelch),
            0x2A => Some(ControlId::YaesuRfGain),
            0x2B => Some(ControlId::YaesuRadioMicGain),
            0x2C => Some(ControlId::YaesuRfPower),
            0x2D => Some(ControlId::YaesuButton),
            0x2E => Some(ControlId::YaesuReadMenus),
            0x2F => Some(ControlId::YaesuSetMenu),
            0x30 => Some(ControlId::AgcMode),
            0x31 => Some(ControlId::AgcGain),
            0x32 => Some(ControlId::RitEnable),
            0x33 => Some(ControlId::RitOffset),
            0x34 => Some(ControlId::XitEnable),
            0x35 => Some(ControlId::XitOffset),
            0x36 => Some(ControlId::SqlEnable),
            0x37 => Some(ControlId::SqlLevel),
            0x38 => Some(ControlId::NoiseBlanker),
            0x39 => Some(ControlId::CwKeyerSpeed),
            0x3A => Some(ControlId::VfoLock),
            0x3B => Some(ControlId::Binaural),
            0x3C => Some(ControlId::ApfEnable),
            0x3D => Some(ControlId::DdcSampleRateRx1),
            0x3E => Some(ControlId::DdcSampleRateRx2),
            0x3F => Some(ControlId::Rx2SpectrumFftSize),
            0x40 => Some(ControlId::DiversityEnable),
            0x41 => Some(ControlId::DiversityRef),
            0x42 => Some(ControlId::DiversitySource),
            0x43 => Some(ControlId::DiversityGainRx1),
            0x44 => Some(ControlId::DiversityGainRx2),
            0x45 => Some(ControlId::DiversityPhase),
            0x46 => Some(ControlId::DiversityRead),
            0x47 => Some(ControlId::DiversityGainMulti),
            0x48 => Some(ControlId::AgcAutoRx1),
            0x49 => Some(ControlId::AgcAutoRx2),
            0x4A => Some(ControlId::DiversityAutoNull),
            0x50 => Some(ControlId::Rx2AgcMode),
            0x51 => Some(ControlId::Rx2AgcGain),
            0x52 => Some(ControlId::Rx2SqlEnable),
            0x53 => Some(ControlId::Rx2SqlLevel),
            0x54 => Some(ControlId::Rx2NoiseBlanker),
            0x55 => Some(ControlId::Rx2Binaural),
            0x56 => Some(ControlId::Rx2ApfEnable),
            0x57 => Some(ControlId::Rx2VfoLock),
            0x58 => Some(ControlId::TuneDrive),
            0x59 => Some(ControlId::MonitorVolume),
            0x5A => Some(ControlId::Mute),
            0x5B => Some(ControlId::RxMute),
            0x5C => Some(ControlId::ManualNotchFilter),
            0x5D => Some(ControlId::RxBalance),
            0x5E => Some(ControlId::CwKey),
            0x5F => Some(ControlId::CwMacroStop),
            0x60 => Some(ControlId::Rx2ManualNotchFilter),
            0x61 => Some(ControlId::ThetisSwr),
            0x62 => Some(ControlId::AudioMode),
            0x63 => Some(ControlId::AllowZoomBelow2x),
            0x64 => Some(ControlId::SmeterSources),
            0x65 => Some(ControlId::DxSpotsEnabled),
            _ => None,
        }
    }

    /// The wire code of this identifier.
    pub fn code(self) -> (r: u8)
        ensures
            r == self.spec_code(),
    {
        match self {
            ControlId::Rx1AfGain => 0x01,
            ControlId::PowerOnOff => 0x02,
            ControlId::TxProfile => 0x03,
            ControlId::NoiseReduction => 0x04,
            ControlId::AutoNotchFilter => 0x05,
            ControlId::DriveLevel => 0x06,
            ControlId::SpectrumEnable => 0x07,
            ControlId::SpectrumFps => 0x08,
            ControlId::SpectrumZoom => 0x09,
            ControlId::SpectrumPan => 0x0A,
            ControlId::FilterLow => 0x0B,
            ControlId::FilterHigh => 0x0C,
            ControlId::ThetisStarting => 0x0D,
            ControlId::Rx2Enable => 0x0E,
            ControlId::Rx2AfGain => 0x0F,
            ControlId::Rx2SpectrumZoom => 0x10,
            ControlId::Rx2SpectrumPan => 0x11,
            ControlId::Rx2FilterLow => 0x12,
            ControlId::Rx2FilterHigh => 0x13,
            ControlId::VfoSync => 0x14,
            ControlId::Rx2SpectrumEnable => 0x15,
            ControlId::Rx2SpectrumFps => 0x16,
            ControlId::Rx2NoiseReduction => 0x17,
            ControlId::Rx2AutoNotchFilter => 0x18,
            ControlId::VfoSwap => 0x19,
            ControlId::SpectrumMaxBins => 0x1A,
            ControlId::Rx2SpectrumMaxBins => 0x1B,
            ControlId::SpectrumFftSize => 0x1C,
            ControlId::Rx2SpectrumFftSize => 0x3F,
            ControlId::SpectrumBinDepth => 0x1D,
            ControlId::MonitorOn => 0x1E,
            ControlId::ThetisTune => 0x1F,
            ControlId::YaesuEnable => 0x20,
            ControlId::YaesuPtt => 0x21,
            ControlId::YaesuFreq => 0x22,
            ControlId::YaesuMicGain => 0x23,
            ControlId::YaesuMode => 0x24,
            ControlId::YaesuReadMemories => 0x25,
            ControlId::YaesuRecallMemory => 0x26,
            ControlId::YaesuWriteMemories => 0x27,
            ControlId::YaesuSelectVfo => 0x28,
            ControlId::YaesuSquelch => 0x29,
            ControlId::YaesuRfGain => 0x2A,
            ControlId::YaesuRadioMicGain => 0x2B,
            ControlId::YaesuRfPower => 0x2C,
            ControlId::YaesuButton => 0x2D,
            ControlId::YaesuReadMenus => 0x2E,
            ControlId::YaesuSetMenu => 0x2F,
            ControlId::AgcMode => 0x30,
            ControlId::AgcGain => 0x31,
            ControlId::RitEnable => 0x32,
            ControlId::RitOffset => 0x33,
            ControlId::XitEnable => 0x34,
            ControlId::XitOffset => 0x35,
            ControlId::SqlEnable => 0x36,
            ControlId::SqlLevel => 0x37,
            ControlId::NoiseBlanker => 0x38,
            ControlId::CwKeyerSpeed => 0x39,
            ControlId::VfoLock => 0x3A,
            ControlId::Binaural => 0x3B,
            ControlId::ApfEnable => 0x3C,
            ControlId::Rx2AgcMode => 0x50,
            ControlId::Rx2AgcGain => 0x51,
            ControlId::Rx2SqlEnable => 0x52,
            ControlId::Rx2SqlLevel => 0x53,
            ControlId::Rx2NoiseBlanker => 0x54,
            ControlId::Rx2Binaural => 0x55,
            ControlId::Rx2ApfEnable => 0x56,
            ControlId::Rx2VfoLock => 0x57,
            ControlId::TuneDrive => 0x58,
            ControlId::MonitorVolume => 0x59,
            ControlId::DiversityAutoNull => 0x4A,
            ControlId::AgcAutoRx1 => 0x48,
            ControlId::AgcAutoRx2 => 0x49,
            ControlId::DdcSampleRateRx1 => 0x3D,
            ControlId::DdcSampleRateRx2 => 0x3E,
            ControlId::DiversityEnable => 0x40,
            ControlId::DiversityRef => 0x41,
            ControlId::DiversitySource => 0x42,
            ControlId::DiversityGainRx1 => 0x43,
            ControlId::DiversityGainRx2 => 0x44,
            ControlId::DiversityPhase => 0x45,
            ControlId::DiversityRead => 0x46,
            ControlId::DiversityGainMulti => 0x47,
            ControlId::Mute => 0x5A,
            ControlId::RxMute => 0x5B,
            ControlId::ManualNotchFilter => 0x5C,
            ControlId::RxBalance => 0x5D,
            ControlId::CwKey => 0x5E,
            ControlId::CwMacroStop => 0x5F,
            ControlId::Rx2ManualNotchFilter => 0x60,
            ControlId::ThetisSwr => 0x61,
            ControlId::AudioMode => 0x62,
            ControlId::AllowZoomBelow2x => 0x63,
            ControlId::SmeterSources => 0x64,
            ControlId::DxSpotsEnabled => 0x65,
        }
    }

    /// Decodes a wire code; `None` for codes that name no identifier.
    pub fn from_u8(v: u8) -> (r: Option<ControlId>)
        ensures
            r == Self::spec_from_code(v),
    {
        match v {
            0x01 => Some(ControlId::Rx1AfGain),
            0x02 => Some(ControlId::PowerOnOff),
            0x03 => Some(ControlId::TxProfile),
            0x04 => Some(ControlId::NoiseReduction),
            0x05 => Some(ControlId::AutoNotchFilter),
            0x06 => Some(ControlId::DriveLevel),
            0x07 => Some(ControlId::SpectrumEnable),
            0x08 => Some(ControlId::SpectrumFps),
            0x09 => Some(ControlId::SpectrumZoom),
            0x0A => Some(ControlId::SpectrumPan),
            0x0B => Some(ControlId::FilterLow),
            0x0C => Some(ControlId::FilterHigh),
            0x0D => Some(ControlId::ThetisStarting),
            0x0E => Some(ControlId::Rx2Enable),
            0x0F => Some(ControlId::Rx2AfGain),
            0x10 => Some(ControlId::Rx2SpectrumZoom),
            0x11 => Some(ControlId::Rx2SpectrumPan),
            0x12 => Some(ControlId::Rx2FilterLow),
            0x13 => Some(ControlId::Rx2FilterHigh),
            0x14 => Some(ControlId::VfoSync),
            0x15 => Some(ControlId::Rx2SpectrumEnable),
            0x16 => Some(ControlId::Rx2SpectrumFps),
            0x17 => Some(ControlId::Rx2NoiseReduction),
            0x18 => Some(ControlId::Rx2AutoNotchFilter),
            0x19 => Some(ControlId::VfoSwap),
            0x1A => Some(ControlId::SpectrumMaxBins),
            0x1B => Some(ControlId::Rx2SpectrumMaxBins),
            0x1C => Some(ControlId::SpectrumFftSize),
            0x1D => Some(ControlId::SpectrumBinDepth),
            0x1E => Some(ControlId::MonitorOn),
            0x1F => Some(ControlId::ThetisTune),
            0x20 => Some(ControlId::YaesuEnable),
            0x21 => Some(ControlId::YaesuPtt),
            0x22 => Some(ControlId::YaesuFreq),
            0x23 => Some(ControlId::YaesuMicGain),
            0x24 => Some(ControlId::YaesuMode),
            0x25 => Some(ControlId::YaesuReadMemories),
            0x26 => Some(ControlId::YaesuRecallMemory),
            0x27 => Some(ControlId::YaesuWriteMemories),
            0x28 => Some(ControlId::YaesuSelectVfo),
            0x29 => Some(ControlId::YaesuSquelch),
            0x2A => Some(ControlId::YaesuRfGain),
            0x2B => Some(ControlId::YaesuRadioMicGain),
            0x2C => Some(ControlId::YaesuRfPower),
            0x2D => Some(ControlId::YaesuButton),
            0x2E => Some(ControlId::YaesuReadMenus),
            0x2F => Some(ControlId::YaesuSetMenu),
            0x30 => Some(ControlId::AgcMode),
            0x31 => Some(ControlId::AgcGain),
            0x32 => Some(ControlId::RitEnable),
            0x33 => Some(ControlId::RitOffset),
            0x34 => Some(ControlId::XitEnable),
            0x35 => Some(ControlId::XitOffset),
            0x36 => Some(ControlId::SqlEnable),
            0x37 => Some(ControlId::SqlLevel),
            0x38 => Some(ControlId::NoiseBlanker),
            0x39 => Some(ControlId::CwKeyerSpeed),
            0x3A => Some(ControlId::VfoLock),
            0x3B => Some(ControlId::Binaural),
            0x3C => Some(ControlId::ApfEnable),
            0x3D => Some(ControlId::DdcSampleRateRx1),
            0x3E => Some(ControlId::DdcSampleRateRx2),
            0x3F => Some(ControlId::Rx2SpectrumFftSize),
            0x40 => Some(ControlId::DiversityEnable),
            0x41 => Some(ControlId::DiversityRef),
            0x42 => Some(ControlId::DiversitySource),
            0x43 => Some(ControlId::DiversityGainRx1),
            0x44 => Some(ControlId::DiversityGainRx2),
            0x45 => Some(ControlId::DiversityPhase),
            0x46 => Some(ControlId::DiversityRead),
            0x47 => Some(ControlId::DiversityGainMulti),
            0x48 => Some(ControlId::AgcAutoRx1),
            0x49 => Some(ControlId::AgcAutoRx2),
            0x4A => Some(ControlId::DiversityAutoNull),
            0x50 => Some(ControlId::Rx2AgcMode),
            0x51 => Some(ControlId::Rx2AgcGain),
            0x52 => Some(ControlId::Rx2SqlEnable),
            0x53 => Some(ControlId::Rx2SqlLevel),
            0x54 => Some(ControlId::Rx2NoiseBlanker),
            0x55 => Some(ControlId::Rx2Binaural),
            0x56 => Some(ControlId::Rx2ApfEnable),
            0x57 => Some(ControlId::Rx2VfoLock),
            0x58 => Some(ControlId::TuneDrive),
            0x59 => Some(ControlId::MonitorVolume),
            0x5A => Some(ControlId::Mute),
            0x5B => Some(ControlId::RxMute),
            0x5C => Some(ControlId::ManualNotchFilter),
            0x5D => Some(ControlId::RxBalance),
            0x5E => Some(ControlId::CwKey),
            0x5F => Some(ControlId::CwMacroStop),
            0x60 => Some(ControlId::Rx2ManualNotchFilter),
            0x61 => Some(ControlId::ThetisSwr),
            0x62 => Some(ControlId::AudioMode),
            0x63 => Some(ControlId::AllowZoomBelow2x),
            0x64 => Some(ControlId::SmeterSources),
            0x65 => Some(ControlId::DxSpotsEnabled),
            _ => None,
        }
    }

    /// Every identifier decodes back from its own code, and a code that
    /// decodes names the identifier whose code it is.
    pub proof fn lemma_code_roundtrip(self, v: u8)
        ensures
            Self::spec_from_code(self.spec_code()) == Some(self),
            Self::spec_from_code(v) matches Some(t) ==> t.spec_code() == v,
    {
    }
}

/// Device type identifiers for external equipment.
#[derive(Debug, Clone, Copy, PartialEq, Eq, Structural)]
pub enum DeviceType {
    Amplitec6x2,
    Tuner,
    SpeExpert,
    Rf2k,
    UltraBeam,
    Rotor,
    RemoteServer,
}

impl DeviceType {
    /// The wire code of this identifier.
    pub open spec fn spec_code(self) -> u8 {
        match self {
            DeviceType::Amplitec6x2 => 0x01,
            DeviceType::Tuner => 0x02,
            DeviceType::SpeExpert => 0x03,
            DeviceType::Rf2k => 0x04,
            DeviceType::UltraBeam => 0x05,
            DeviceType::Rotor => 0x06,
            DeviceType::RemoteServer => 0x07,
        }
    }

    /// The identifier carried by wire code `v`, if any.
    pub open spec fn spec_from_code(v: u8) -> Option<DeviceType> {
        match v {
            0x01 => Some(DeviceType::Amplitec6x2),
            0x02 => Some(DeviceType::Tuner),
            0x03 => Some(DeviceType::SpeExpert),
            0x04 => Some(DeviceType::Rf2k),
            0x05 => Some(DeviceType::UltraBeam),
            0x06 => Some(DeviceType::Rotor),
            0x07 => Some(DeviceType::RemoteServer),
            _ => None,
        }
    }

    /// The wire code of this identifier.
    pub fn code(self) -> (r: u8)
        ensures
            r == self.spec_code(),
    {
        match self {
            DeviceType::Amplitec6x2 => 0x01,
            DeviceType::Tuner => 0x02,
            DeviceType::SpeExpert => 0x03,
            DeviceType::Rf2k => 0x04,
            DeviceType::UltraBeam => 0x05,
            DeviceType::Rotor => 0x06,
            DeviceType::RemoteServer => 0x07,
        }
    }

    /// Decodes a wire code; `None` for codes that name no identifier.
    pub fn from_u8(v: u8) -> (r: Option<DeviceType>)
        ensures
            r == Self::spec_from_code(v),
    {
        match v {
            0x01 => Some(DeviceType::Amplitec6x2),
            0x02 => Some(DeviceType::Tuner),
            0x03 => Some(DeviceType::SpeExpert),
            0x04 => Some(DeviceType::Rf2k),
            0x05 => Some(DeviceType::UltraBeam),
            0x06 => Some(DeviceType::Rotor),
            0x07 => Some(DeviceType::RemoteServer),
            _ => None,
        }
    }

    /// Every identifier decodes back from its own code, and a code that
    /// decodes names the identifier whose code it is.
    pub proof fn lemma_code_roundtrip(self, v: u8)
        ensures
            Self::spec_from_code(self.spec_code()) == Some(self),
            Self::spec_from_code(v) matches Some(t) ==> t.spec_code() == v,
    {
    }
}

} // verus!
