//! The server's settings: their defaults, the tuner model names, and the
//! small edits that the server makes to them on its own.

use vstd::prelude::*;
use vstd::string::{StrSliceExecFns, StringExecFns};

use crate::scan::{chars_of, matches_ignoring_ascii_case, span_is_ignoring_ascii_case, trim, trim_span};

verus! {



/// Cosmetic alias for a StockCorner tuner; both models speak the same
/// control protocol, the name is only shown.
#[derive(Clone, Copy, Debug, PartialEq, Eq, Structural)]
pub enum TunerModel {
    /// StockCorner JC-4s (the default).
    Jc4s,
    /// StockCorner JC-3s.
    Jc3s,
}

impl TunerModel {
    /// The name shown to the user.
    pub open spec fn spec_label(self) -> Seq<char> {
        match self {
            TunerModel::Jc4s => "JC-4s"@,
            TunerModel::Jc3s => "JC-3s"@,
        }
    }

    /// The token written to the settings file.
    pub open spec fn spec_as_str(self) -> Seq<char> {
        match self {
            TunerModel::Jc4s => "jc-4s"@,
            TunerModel::Jc3s => "jc-3s"@,
        }
    }

    /// The model a settings token names: `jc-3s` or `jc3s` in any ASCII
    /// case, around white space, is the JC-3s; anything else is the JC-4s.
    pub open spec fn spec_parse(s: Seq<char>) -> TunerModel {
        let t = trim(s);
        if matches_ignoring_ascii_case(t, "jc-3s"@) || matches_ignoring_ascii_case(t, "jc3s"@) {
            TunerModel::Jc3s
        } else {
            TunerModel::Jc4s
        }
    }

    /// Human-readable label for the UI and logs.
    pub fn label(&self) -> (r: &'static str)
        ensures
            r@ == self.spec_label(),
    {
        match self {
            TunerModel::Jc4s => "JC-4s",
            TunerModel::Jc3s => "JC-3s",
        }
    }

    /// Settings-file token (lower case, hyphenated).
    pub fn as_str(&self) -> (r: &'static str)
        ensures
            r@ == self.spec_as_str(),
    {
        match self {
            TunerModel::Jc4s => "jc-4s",
            TunerModel::Jc3s => "jc-3s",
        }
    }

    /// Reads `chars[lo..hi]` as a settings token.
    pub fn parse_span(chars: &Vec<char>, lo: usize, hi: usize) -> (r: TunerModel)
        requires
            lo <= hi <= chars@.len(),
        ensures
            r == TunerModel::spec_parse(chars@.subrange(lo as int, hi as int)),
    {
        let (a, b) = trim_span(chars, lo, hi);
        if span_is_ignoring_ascii_case(chars, a, b, "jc-3s") || span_is_ignoring_ascii_case(
            chars,
            a,
            b,
            "jc3s",
        ) {
            TunerModel::Jc3s
        } else {
            TunerModel::Jc4s
        }
    }

    /// Parses a settings token; unknown text falls back to the JC-4s.
    pub fn parse(s: &str) -> (r: TunerModel)
        ensures
            r == TunerModel::spec_parse(s@),
    {
        let chars = chars_of(s);
        let n = chars.len();
        assert(chars@.subrange(0, n as int) =~= s@);
        TunerModel::parse_span(&chars, 0, n)
    }
}

/// A tuner's settings-file token, and its display label too, read back as
/// the same model; the token is the label in lower case.
pub proof fn lemma_tuner_model_roundtrip(m: TunerModel)
    ensures
        TunerModel::spec_parse(m.spec_as_str()) == m,
        TunerModel::spec_parse(m.spec_label()) == m,
        matches_ignoring_ascii_case(m.spec_label(), m.spec_as_str()),
{
    reveal_strlit("jc-4s");
    reveal_strlit("jc-3s");
    reveal_strlit("jc3s");
    reveal_strlit("JC-4s");
    reveal_strlit("JC-3s");
    let words = seq!["jc-4s"@, "jc-3s"@, "JC-4s"@, "JC-3s"@];
    assert forall|i: int| 0 <= i < 4 implies #[trigger] trim(words[i]) == words[i] by {
        let w = words[i];
        assert(w.len() == 5);
        assert(!crate::scan::is_white_space(w[0]));
        assert(!crate::scan::is_white_space(w[4]));
        assert(crate::scan::trim_start(w) == w);
        assert(crate::scan::trim_end(w) == w);
    }
    assert(trim(words[0]) == words[0]);
    assert(trim(words[1]) == words[1]);
    assert(trim(words[2]) == words[2]);
    assert(trim(words[3]) == words[3]);
    assert(!matches_ignoring_ascii_case("jc-4s"@, "jc-3s"@)) by {
        assert(crate::scan::ascii_lower_code("jc-4s"@[3]) != "jc-3s"@[3] as u32);
    }
    assert(!matches_ignoring_ascii_case("JC-4s"@, "jc-3s"@)) by {
        assert(crate::scan::ascii_lower_code("JC-4s"@[3]) != "jc-3s"@[3] as u32);
    }
    assert(matches_ignoring_ascii_case("jc-3s"@, "jc-3s"@));
    assert(matches_ignoring_ascii_case("JC-3s"@, "jc-3s"@));
}

/// Which window a saved position or size belongs to.
#[derive(Clone, Copy, Debug, PartialEq, Eq, Structural)]
pub enum Window {
    Main,
    Tuner,
    Amplitec,
    Spe,
    Rf2k,
    Ultrabeam,
    Rotor,
}

/// A setting whose value is a floating-point number.
#[derive(Clone, Copy, Debug, PartialEq, Eq, Structural)]
pub enum FloatSetting {
    /// Component `index` (0 = x, 1 = y) of a window's saved position.
    WindowPos { window: Window, index: usize },
    /// Component `index` (0 = width, 1 = height) of a window's saved size.
    WindowSize { window: Window, index: usize },
    /// Tune-detector threshold (volts) of tuner slot `slot` (0 or 1).
    TunerThreshold { slot: usize },
    /// Tune-detector hysteresis (volts) of tuner slot `slot` (0 or 1).
    TunerHysteresis { slot: usize },
}

/// A floating-point setting as the file gives it: which one, and its text.
pub struct FloatEntry {
    pub setting: FloatSetting,
    pub value: String,
}

/// The floating-point settings read so far, in file order.
pub open spec fn floats_view(v: Seq<FloatEntry>) -> Seq<(FloatSetting, Seq<char>)> {
    v.map_values(|e: FloatEntry| (e.setting, e.value@))
}

/// An optional text taken by its characters.
pub open spec fn opt_text(o: Option<String>) -> Option<Seq<char>> {
    match o {
        Some(s) => Some(s@),
        None => None,
    }
}

/// Per-slot tuner settings (the tune-detector voltages are floating-point
/// settings and travel as `FloatEntry`s).
pub struct TunerSettings {
    /// Enable this tuner slot at server start.
    pub enabled: bool,
    /// Cosmetic model alias.
    pub model: TunerModel,
    /// USB serial of the MCP2221A board that drives this tuner; empty means
    /// the first board on the bus.
    pub mcp_serial: String,
    /// Amplitec-A antenna position (1..=6) the tuner sits behind, if any.
    pub amplitec_pos: Option<u8>,
}

/// What a tuner slot's settings are.
pub struct TunerSettingsView {
    pub enabled: bool,
    pub model: TunerModel,
    pub mcp_serial: Seq<char>,
    pub amplitec_pos: Option<u8>,
}

impl View for TunerSettings {
    type V = TunerSettingsView;

    open spec fn view(&self) -> TunerSettingsView {
        TunerSettingsView {
            enabled: self.enabled,
            model: self.model,
            mcp_serial: self.mcp_serial@,
            amplitec_pos: self.amplitec_pos,
        }
    }
}

/// A tuner slot as it starts out: disabled JC-4s, no board, no position.
pub open spec fn default_tuner() -> TunerSettingsView {
    TunerSettingsView {
        enabled: false,
        model: TunerModel::Jc4s,
        mcp_serial: Seq::empty(),
        amplitec_pos: None,
    }
}

impl TunerSettings {
    /// A tuner slot as it starts out.
    pub fn new() -> (t: TunerSettings)
        ensures
            t@ == default_tuner(),
    {
        TunerSettings {
            enabled: false,
            model: TunerModel::Jc4s,
            mcp_serial: String::new(),
            amplitec_pos: None,
        }
    }
}


/// Radio-link settings.
pub struct RadioSettings {
    /// TCI WebSocket address.
    pub tci_addr: Option<String>,
    pub spectrum_enabled: bool,
    /// Path of the radio software to launch, if any.
    pub thetis_path: Option<String>,
    pub yaesu_port: Option<String>,
    pub yaesu_enabled: bool,
    pub yaesu_baud: u32,
    /// Pattern of the Yaesu USB audio input device name.
    pub yaesu_audio_device: Option<String>,
}

/// What the radio-link settings are.
pub struct RadioView {
    pub tci_addr: Option<Seq<char>>,
    pub spectrum_enabled: bool,
    pub thetis_path: Option<Seq<char>>,
    pub yaesu_port: Option<Seq<char>>,
    pub yaesu_enabled: bool,
    pub yaesu_baud: u32,
    pub yaesu_audio_device: Option<Seq<char>>,
}

impl View for RadioSettings {
    type V = RadioView;

    open spec fn view(&self) -> RadioView {
        RadioView {
            tci_addr: opt_text(self.tci_addr),
            spectrum_enabled: self.spectrum_enabled,
            thetis_path: opt_text(self.thetis_path),
            yaesu_port: opt_text(self.yaesu_port),
            yaesu_enabled: self.yaesu_enabled,
            yaesu_baud: self.yaesu_baud,
            yaesu_audio_device: opt_text(self.yaesu_audio_device),
        }
    }
}

/// Antenna-switch settings.
pub struct AmplitecSettings {
    pub port: Option<String>,
    pub enabled: bool,
    /// Labels of the six antenna positions (shared by ports A and B).
    pub labels: [String; 6],
    pub show_window: bool,
}

/// What the antenna-switch settings are.
pub struct AmplitecView {
    pub port: Option<Seq<char>>,
    pub enabled: bool,
    pub labels: Seq<Seq<char>>,
    pub show_window: bool,
}

/// The six labels taken by their characters.
pub open spec fn labels_view(labels: [String; 6]) -> Seq<Seq<char>> {
    seq![labels[0]@, labels[1]@, labels[2]@, labels[3]@, labels[4]@, labels[5]@]
}

impl View for AmplitecSettings {
    type V = AmplitecView;

    open spec fn view(&self) -> AmplitecView {
        AmplitecView {
            port: opt_text(self.port),
            enabled: self.enabled,
            labels: labels_view(self.labels),
            show_window: self.show_window,
        }
    }
}

/// The two tuner slots.
pub struct TunerSlots {
    pub tuner1: TunerSettings,
    pub tuner2: TunerSettings,
    pub show_window: bool,
}

/// What the tuner slots are.
pub struct TunerSlotsView {
    pub tuner1: TunerSettingsView,
    pub tuner2: TunerSettingsView,
    pub show_window: bool,
}

impl View for TunerSlots {
    type V = TunerSlotsView;

    open spec fn view(&self) -> TunerSlotsView {
        TunerSlotsView { tuner1: self.tuner1@, tuner2: self.tuner2@, show_window: self.show_window }
    }
}

/// Settings of a device reached by a serial port or a network address.
pub struct DeviceSettings {
    pub port: Option<String>,
    pub enabled: bool,
    pub show_window: bool,
}

/// What a device's settings are.
pub struct DeviceView {
    pub port: Option<Seq<char>>,
    pub enabled: bool,
    pub show_window: bool,
}

impl View for DeviceSettings {
    type V = DeviceView;

    open spec fn view(&self) -> DeviceView {
        DeviceView { port: opt_text(self.port), enabled: self.enabled, show_window: self.show_window }
    }
}

/// State kept across server restarts.
#[derive(Clone, Copy, Debug, PartialEq, Eq, Structural)]
pub struct SessionState {
    /// Start the server at launch, skipping the settings screen.
    pub autostart: bool,
    /// Active power amplifier: 0 none, 1 SPE, 2 RF2K.
    pub active_pa: u8,
    /// Drive level saved before the RF2K went to Operate.
    pub rf2k_saved_drive: Option<u8>,
    /// Drive level saved before the SPE went to Operate.
    pub spe_saved_drive: Option<u8>,
    pub ultrabeam_show_menu: bool,
    pub mcp2221_section_expanded: bool,
}

/// DX-cluster settings.
pub struct ClusterSettings {
    pub server: String,
    pub callsign: String,
    pub enabled: bool,
    /// Spot expiry in minutes, at least 1 once read from the file.
    pub expiry_min: u16,
}

/// What the DX-cluster settings are.
pub struct ClusterView {
    pub server: Seq<char>,
    pub callsign: Seq<char>,
    pub enabled: bool,
    pub expiry_min: u16,
}

impl View for ClusterSettings {
    type V = ClusterView;

    open spec fn view(&self) -> ClusterView {
        ClusterView {
            server: self.server@,
            callsign: self.callsign@,
            enabled: self.enabled,
            expiry_min: self.expiry_min,
        }
    }
}

/// Access and announcement settings.
pub struct AccessSettings {
    /// The network password as the file stores it. The library neither
    /// encodes nor decodes it: whatever obfuscation the file's password uses
    /// is applied outside it.
    pub password: Option<String>,
    /// The TOTP secret as the file stores it, likewise taken and written as
    /// it stands.
    pub totp_secret: Option<String>,
    pub totp_enabled: bool,
    /// Name advertised on the local network.
    pub friendly_name: Option<String>,
}

/// What the access settings are.
pub struct AccessView {
    pub password: Option<Seq<char>>,
    pub totp_secret: Option<Seq<char>>,
    pub totp_enabled: bool,
    pub friendly_name: Option<Seq<char>>,
}

impl View for AccessSettings {
    type V = AccessView;

    open spec fn view(&self) -> AccessView {
        AccessView {
            password: opt_text(self.password),
            totp_secret: opt_text(self.totp_secret),
            totp_enabled: self.totp_enabled,
            friendly_name: opt_text(self.friendly_name),
        }
    }
}

/// The server's settings, but for the floating-point ones (window geometry
/// and tune-detector voltages), grouped by what they concern.
pub struct ServerSettings {
    pub radio: RadioSettings,
    pub amplitec: AmplitecSettings,
    pub tuners: TunerSlots,
    /// SPE Expert amplifier (serial port).
    pub spe: DeviceSettings,
    /// RF2K-S amplifier (network address).
    pub rf2k: DeviceSettings,
    /// UltraBeam controller (serial port).
    pub ultrabeam: DeviceSettings,
    /// Rotor controller (network address).
    pub rotor: DeviceSettings,
    pub session: SessionState,
    pub cluster: ClusterSettings,
    pub access: AccessSettings,
}

/// What the server's settings are.
pub struct SettingsView {
    pub radio: RadioView,
    pub amplitec: AmplitecView,
    pub tuners: TunerSlotsView,
    pub spe: DeviceView,
    pub rf2k: DeviceView,
    pub ultrabeam: DeviceView,
    pub rotor: DeviceView,
    pub session: SessionState,
    pub cluster: ClusterView,
    pub access: AccessView,
}

impl View for ServerSettings {
    type V = SettingsView;

    open spec fn view(&self) -> SettingsView {
        SettingsView {
            radio: self.radio@,
            amplitec: self.amplitec@,
            tuners: self.tuners@,
            spe: self.spe@,
            rf2k: self.rf2k@,
            ultrabeam: self.ultrabeam@,
            rotor: self.rotor@,
            session: self.session,
            cluster: self.cluster@,
            access: self.access@,
        }
    }
}

/// `prefix` followed by 1, 2, ..., 6.
pub open spec fn numbered_labels(prefix: Seq<char>) -> Seq<Seq<char>> {
    seq![
        prefix + "1"@,
        prefix + "2"@,
        prefix + "3"@,
        prefix + "4"@,
        prefix + "5"@,
        prefix + "6"@,
    ]
}

/// The six default antenna labels: `prefix` numbered 1 to 6.
pub fn default_labels(prefix: &str) -> (r: [String; 6])
    ensures
        labels_view(r) == numbered_labels(prefix@),
{
    let r = [
        String::from_str(prefix).concat("1"),
        String::from_str(prefix).concat("2"),
        String::from_str(prefix).concat("3"),
        String::from_str(prefix).concat("4"),
        String::from_str(prefix).concat("5"),
        String::from_str(prefix).concat("6"),
    ];
    assert(labels_view(r) =~= numbered_labels(prefix@));
    r
}

/// Where the radio software is installed by default.
pub fn thetis_default_path() -> (r: &'static str)
    ensures
        r@ == "C:\\Program Files\\OpenHPSDR\\Thetis\\Thetis.exe"@,
{
    "C:\\Program Files\\OpenHPSDR\\Thetis\\Thetis.exe"
}

/// The launch path to use: the default install path when the program is
/// found there, none otherwise.
pub fn detect_thetis_path(installed: bool) -> (r: Option<String>)
    ensures
        opt_text(r) == (if installed {
            Some("C:\\Program Files\\OpenHPSDR\\Thetis\\Thetis.exe"@)
        } else {
            None
        }),
{
    if installed {
        Some(String::from_str(thetis_default_path()))
    } else {
        None
    }
}

/// A device as it starts out: no port, enabled, window shown.
pub open spec fn default_device() -> DeviceView {
    DeviceView { port: None, enabled: true, show_window: true }
}

/// The settings before any file is read, with the launch path found on
/// this machine.
pub open spec fn default_settings(thetis_path: Option<Seq<char>>) -> SettingsView {
    SettingsView {
        radio: RadioView {
            tci_addr: None,
            spectrum_enabled: true,
            thetis_path: thetis_path,
            yaesu_port: None,
            yaesu_enabled: false,
            yaesu_baud: 38400,
            yaesu_audio_device: None,
        },
        amplitec: AmplitecView {
            port: None,
            enabled: true,
            labels: numbered_labels("Ant"@),
            show_window: true,
        },
        tuners: TunerSlotsView { tuner1: default_tuner(), tuner2: default_tuner(), show_window: true },
        spe: default_device(),
        rf2k: default_device(),
        ultrabeam: default_device(),
        rotor: default_device(),
        session: SessionState {
            autostart: false,
            active_pa: 0,
            rf2k_saved_drive: None,
            spe_saved_drive: None,
            ultrabeam_show_menu: false,
            mcp2221_section_expanded: true,
        },
        cluster: ClusterView {
            server: "dxc.pi4cc.nl:8000"@,
            callsign: "PA3GHM"@,
            enabled: true,
            expiry_min: 10,
        },
        access: AccessView {
            password: None,
            totp_secret: None,
            totp_enabled: false,
            friendly_name: None,
        },
    }
}

impl DeviceSettings {
    /// A device as it starts out.
    pub fn new() -> (d: DeviceSettings)
        ensures
            d@ == default_device(),
    {
        DeviceSettings { port: None, enabled: true, show_window: true }
    }
}

impl ServerSettings {
    /// The default settings, with the given launch path.
    pub fn with_thetis_path(thetis_path: Option<String>) -> (s: ServerSettings)
        ensures
            s@ == default_settings(opt_text(thetis_path)),
    {
        ServerSettings {
            radio: RadioSettings {
                tci_addr: None,
                spectrum_enabled: true,
                thetis_path: thetis_path,
                yaesu_port: None,
                yaesu_enabled: false,
                yaesu_baud: 38400,
                yaesu_audio_device: None,
            },
            amplitec: AmplitecSettings {
                port: None,
                enabled: true,
                labels: default_labels("Ant"),
                show_window: true,
            },
            tuners: TunerSlots {
                tuner1: TunerSettings::new(),
                tuner2: TunerSettings::new(),
                show_window: true,
            },
            spe: DeviceSettings::new(),
            rf2k: DeviceSettings::new(),
            ultrabeam: DeviceSettings::new(),
            rotor: DeviceSettings::new(),
            session: SessionState {
                autostart: false,
                active_pa: 0,
                rf2k_saved_drive: None,
                spe_saved_drive: None,
                ultrabeam_show_menu: false,
                mcp2221_section_expanded: true,
            },
            cluster: ClusterSettings {
                server: String::from_str("dxc.pi4cc.nl:8000"),
                callsign: String::from_str("PA3GHM"),
                enabled: true,
                expiry_min: 10,
            },
            access: AccessSettings {
                password: None,
                totp_secret: None,
                totp_enabled: false,
                friendly_name: None,
            },
        }
    }
}

/// The settings with `session` in place of their session state.
pub open spec fn with_session(s: SettingsView, session: SessionState) -> SettingsView {
    SettingsView { session: session, ..s }
}

/// Records which power amplifier is active.
pub fn save_active_pa(settings: &mut ServerSettings, value: u8)
    ensures
        final(settings)@ == with_session(
            old(settings)@,
            SessionState { active_pa: value, ..old(settings).session },
        ),
{
    settings.session.active_pa = value;
}

/// Records (or, with `None`, clears) the drive level saved for a power
/// amplifier: `pa_id` 1 is the SPE, 2 the RF2K; any other id changes nothing.
pub fn save_saved_drive(settings: &mut ServerSettings, pa_id: u8, value: Option<u8>)
    ensures
        final(settings)@ == (if pa_id == 1 {
            with_session(old(settings)@, SessionState { spe_saved_drive: value, ..old(settings).session })
        } else if pa_id == 2 {
            with_session(old(settings)@, SessionState { rf2k_saved_drive: value, ..old(settings).session })
        } else {
            old(settings)@
        }),
{
    match pa_id {
        1 => settings.session.spe_saved_drive = value,
        2 => settings.session.rf2k_saved_drive = value,
        _ => {},
    }
}

/// Records whether the UltraBeam window shows its menu section.
pub fn save_ultrabeam_show_menu(settings: &mut ServerSettings, value: bool)
    ensures
        final(settings)@ == with_session(
            old(settings)@,
            SessionState { ultrabeam_show_menu: value, ..old(settings).session },
        ),
{
    settings.session.ultrabeam_show_menu = value;
}

/// Records whether the status panel's tuner-bridges section is expanded.
pub fn save_mcp2221_section_expanded(settings: &mut ServerSettings, value: bool)
    ensures
        final(settings)@ == with_session(
            old(settings)@,
            SessionState { mcp2221_section_expanded: value, ..old(settings).session },
        ),
{
    settings.session.mcp2221_section_expanded = value;
}

/// `parts` joined with commas.
pub open spec fn comma_joined(parts: Seq<Seq<char>>) -> Seq<char>
    decreases parts.len(),
{
    if parts.len() == 0 {
        Seq::empty()
    } else if parts.len() == 1 {
        parts[0]
    } else {
        comma_joined(parts.drop_last()) + ","@ + parts.last()
    }
}

/// The antenna labels as sent to clients: the six labels for port A, then
/// the same six for port B, joined with commas.
pub fn labels_string(settings: &ServerSettings) -> (r: String)
    ensures
        r@ == comma_joined(settings@.amplitec.labels + settings@.amplitec.labels),
{
    let labels = &settings.amplitec.labels;
    let ghost parts = labels_view(*labels) + labels_view(*labels);
    let mut out = String::new();
    let mut i: usize = 0;
    while i < 12
        invariant
            i <= 12,
            parts.len() == 12,
            parts == labels_view(*labels) + labels_view(*labels),
            out@ == comma_joined(parts.subrange(0, i as int)),
        decreases 12 - i,
    {
        let label = if i < 6 {
            &labels[i]
        } else {
            &labels[i - 6]
        };
        assert(label@ == parts[i as int]);
        assert(parts.subrange(0, i + 1).drop_last() =~= parts.subrange(0, i as int));
        if i > 0 {
            out.append(",");
        }
        out.append(label.as_str());
        i = i + 1;
    }
    assert(parts.subrange(0, 12) =~= parts);
    out
}

} // verus!
