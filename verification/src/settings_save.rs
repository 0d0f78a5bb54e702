//! Writing the server's settings file: the text, line by line, that the
//! settings are saved as. Floating-point settings come in as text already
//! written by the caller.

use vstd::prelude::*;
use vstd::string::{StrSliceExecFns, StringExecFns};

use crate::scan::{decimal_digits, push_decimal};
use crate::settings::{
    floats_view, AccessView, ClusterView, DeviceSettings, DeviceView, FloatEntry, FloatSetting,
    ServerSettings, SessionState, SettingsView, TunerSettings, TunerSettingsView, Window,
};
use crate::settings_file::FloatList;

verus! {

/// One `key=value` line.
pub open spec fn entry_line(key: Seq<char>, value: Seq<char>) -> Seq<char> {
    key + "="@ + value + "\n"@
}

/// `true` or `false`.
pub open spec fn bool_text(b: bool) -> Seq<char> {
    if b {
        "true"@
    } else {
        "false"@
    }
}

/// An optional text, empty when absent.
pub open spec fn text_or_empty(o: Option<Seq<char>>) -> Seq<char> {
    match o {
        Some(t) => t,
        None => Seq::empty(),
    }
}

/// The text of the first floating-point entry for `s`, if any.
pub open spec fn float_value(f: FloatList, s: FloatSetting) -> Option<Seq<char>>
    decreases f.len(),
{
    if f.len() == 0 {
        None
    } else if f[0].0 == s {
        Some(f[0].1)
    } else {
        float_value(f.drop_first(), s)
    }
}

/// The three lines of a device: port, enabled, window shown.
pub open spec fn device_lines(keys: (Seq<char>, Seq<char>, Seq<char>), d: DeviceView) -> Seq<char> {
    entry_line(keys.0, text_or_empty(d.port)) + entry_line(keys.1, bool_text(d.enabled))
        + entry_line(keys.2, bool_text(d.show_window))
}

/// The opening block: radio link, switch, tuner window and the devices.
pub open spec fn head_lines(c: SettingsView) -> Seq<char> {
    entry_line("tci"@, text_or_empty(c.radio.tci_addr)) + entry_line(
        "thetis_path"@,
        text_or_empty(c.radio.thetis_path),
    ) + entry_line("yaesu_port"@, text_or_empty(c.radio.yaesu_port)) + entry_line(
        "yaesu_enabled"@,
        bool_text(c.radio.yaesu_enabled),
    ) + entry_line("yaesu_baud"@, decimal_digits(c.radio.yaesu_baud as nat)) + entry_line(
        "yaesu_audio"@,
        text_or_empty(c.radio.yaesu_audio_device),
    ) + entry_line("amplitec_port"@, text_or_empty(c.amplitec.port)) + entry_line(
        "amplitec_enabled"@,
        bool_text(c.amplitec.enabled),
    ) + entry_line("amplitec_window"@, bool_text(c.amplitec.show_window)) + entry_line(
        "tuner_window"@,
        bool_text(c.tuners.show_window),
    ) + device_lines(("spe_port"@, "spe_enabled"@, "spe_window"@), c.spe) + device_lines(
        ("rf2k_addr"@, "rf2k_enabled"@, "rf2k_window"@),
        c.rf2k,
    ) + device_lines(("ultrabeam_port"@, "ultrabeam_enabled"@, "ultrabeam_window"@), c.ultrabeam)
        + device_lines(("rotor_addr"@, "rotor_enabled"@, "rotor_window"@), c.rotor)
}

/// A line that is written only when its value is there.
pub open spec fn optional_line(key: Seq<char>, value: Option<Seq<char>>) -> Seq<char> {
    match value {
        Some(v) => entry_line(key, v),
        None => Seq::empty(),
    }
}

/// The lines of a tuner slot; `keys` are its six keys in order.
pub open spec fn tuner_lines(
    keys: (Seq<char>, Seq<char>, Seq<char>, Seq<char>, Seq<char>, Seq<char>),
    t: TunerSettingsView,
    f: FloatList,
    slot: usize,
) -> Seq<char> {
    entry_line(keys.0, bool_text(t.enabled)) + entry_line(keys.1, t.model.spec_as_str())
        + entry_line(keys.2, t.mcp_serial) + entry_line(
        keys.3,
        match t.amplitec_pos {
            Some(n) => decimal_digits(n as nat),
            None => Seq::empty(),
        },
    ) + optional_line(keys.4, float_value(f, FloatSetting::TunerThreshold { slot: slot }))
        + optional_line(keys.5, float_value(f, FloatSetting::TunerHysteresis { slot: slot }))
}

/// The six antenna labels.
pub open spec fn label_lines(labels: Seq<Seq<char>>) -> Seq<char> {
    entry_line("amplitec_label1"@, labels[0]) + entry_line("amplitec_label2"@, labels[1])
        + entry_line("amplitec_label3"@, labels[2]) + entry_line("amplitec_label4"@, labels[3])
        + entry_line("amplitec_label5"@, labels[4]) + entry_line("amplitec_label6"@, labels[5])
}

/// A window's two geometry lines, written when both values are there.
pub open spec fn pair_lines(keys: (Seq<char>, Seq<char>), a: Option<Seq<char>>, b: Option<Seq<char>>) -> Seq<char> {
    match (a, b) {
        (Some(x), Some(y)) => entry_line(keys.0, x) + entry_line(keys.1, y),
        _ => Seq::empty(),
    }
}

/// The position lines of a window.
pub open spec fn pos_lines(keys: (Seq<char>, Seq<char>), f: FloatList, w: Window) -> Seq<char> {
    pair_lines(
        keys,
        float_value(f, FloatSetting::WindowPos { window: w, index: 0 }),
        float_value(f, FloatSetting::WindowPos { window: w, index: 1 }),
    )
}

/// The size lines of a window.
pub open spec fn size_lines(keys: (Seq<char>, Seq<char>), f: FloatList, w: Window) -> Seq<char> {
    pair_lines(
        keys,
        float_value(f, FloatSetting::WindowSize { window: w, index: 0 }),
        float_value(f, FloatSetting::WindowSize { window: w, index: 1 }),
    )
}

/// The window positions.
pub open spec fn position_lines(f: FloatList) -> Seq<char> {
    pos_lines(("tuner_pos_x"@, "tuner_pos_y"@), f, Window::Tuner) + pos_lines(
        ("amplitec_pos_x"@, "amplitec_pos_y"@),
        f,
        Window::Amplitec,
    ) + pos_lines(("spe_pos_x"@, "spe_pos_y"@), f, Window::Spe) + pos_lines(
        ("rf2k_pos_x"@, "rf2k_pos_y"@),
        f,
        Window::Rf2k,
    ) + pos_lines(("ultrabeam_pos_x"@, "ultrabeam_pos_y"@), f, Window::Ultrabeam) + pos_lines(
        ("rotor_pos_x"@, "rotor_pos_y"@),
        f,
        Window::Rotor,
    ) + pos_lines(("main_pos_x"@, "main_pos_y"@), f, Window::Main)
}

/// The window sizes.
pub open spec fn window_size_lines(f: FloatList) -> Seq<char> {
    size_lines(("main_size_w"@, "main_size_h"@), f, Window::Main) + size_lines(
        ("tuner_size_w"@, "tuner_size_h"@),
        f,
        Window::Tuner,
    ) + size_lines(("amplitec_size_w"@, "amplitec_size_h"@), f, Window::Amplitec) + size_lines(
        ("spe_size_w"@, "spe_size_h"@),
        f,
        Window::Spe,
    ) + size_lines(("rf2k_size_w"@, "rf2k_size_h"@), f, Window::Rf2k) + size_lines(
        ("ultrabeam_size_w"@, "ultrabeam_size_h"@),
        f,
        Window::Ultrabeam,
    ) + size_lines(("rotor_size_w"@, "rotor_size_h"@), f, Window::Rotor)
}

/// The window-geometry block: positions, then sizes.
pub open spec fn geometry_lines(f: FloatList) -> Seq<char> {
    position_lines(f) + window_size_lines(f)
}

/// The session-state lines.
pub open spec fn session_lines(s: SessionState) -> Seq<char> {
    entry_line("autostart"@, bool_text(s.autostart)) + entry_line(
        "active_pa"@,
        decimal_digits(s.active_pa as nat),
    ) + optional_line(
        "rf2k_saved_drive"@,
        match s.rf2k_saved_drive {
            Some(n) => Some(decimal_digits(n as nat)),
            None => None,
        },
    ) + optional_line(
        "spe_saved_drive"@,
        match s.spe_saved_drive {
            Some(n) => Some(decimal_digits(n as nat)),
            None => None,
        },
    ) + entry_line("ultrabeam_show_menu"@, bool_text(s.ultrabeam_show_menu)) + entry_line(
        "mcp2221_section_expanded"@,
        bool_text(s.mcp2221_section_expanded),
    )
}

/// The DX-cluster lines.
pub open spec fn cluster_lines(x: ClusterView) -> Seq<char> {
    entry_line("dxcluster_server"@, x.server) + entry_line("dxcluster_callsign"@, x.callsign)
        + entry_line("dxcluster_enabled"@, bool_text(x.enabled)) + entry_line(
        "dxcluster_expiry_min"@,
        decimal_digits(x.expiry_min as nat),
    )
}

/// The access lines. The password and TOTP secret are written as they are
/// held, in plain text; no obfuscation is applied here.
pub open spec fn access_lines(a: AccessView) -> Seq<char> {
    optional_line("password"@, a.password) + entry_line("totp_enabled"@, bool_text(a.totp_enabled))
        + optional_line("totp_secret"@, a.totp_secret) + optional_line(
        "friendly_name"@,
        a.friendly_name,
    )
}

/// The closing block: session state, DX cluster and access.
pub open spec fn tail_lines(s: SessionState, x: ClusterView, a: AccessView) -> Seq<char> {
    session_lines(s) + cluster_lines(x) + access_lines(a)
}

/// The whole settings file for the settings `c` and the floating-point
/// settings `f` (each written from its first entry).
pub open spec fn settings_text(c: SettingsView, f: FloatList) -> Seq<char> {
    head_lines(c) + tuner_lines(
        ("tuner1_enabled"@, "tuner1_model"@, "tuner1_mcp_serial"@, "tuner1_amplitec_pos"@, "tuner1_threshold_v"@, "tuner1_hysteresis_v"@),
        c.tuners.tuner1,
        f,
        0,
    ) + tuner_lines(
        ("tuner2_enabled"@, "tuner2_model"@, "tuner2_mcp_serial"@, "tuner2_amplitec_pos"@, "tuner2_threshold_v"@, "tuner2_hysteresis_v"@),
        c.tuners.tuner2,
        f,
        1,
    ) + label_lines(c.amplitec.labels) + geometry_lines(f) + tail_lines(c.session, c.cluster, c.access)
}

/// Appends `key=value` and a line break.
fn push_entry(out: &mut String, key: &str, value: &str)
    ensures
        final(out)@ == old(out)@ + entry_line(key@, value@),
{
    out.append(key);
    out.append("=");
    out.append(value);
    out.append("\n");
    assert(final(out)@ =~= old(out)@ + entry_line(key@, value@));
}

/// Appends `key=` then the decimal number `n` and a line break.
fn push_number_entry(out: &mut String, key: &str, n: u64)
    ensures
        final(out)@ == old(out)@ + entry_line(key@, decimal_digits(n as nat)),
{
    out.append(key);
    out.append("=");
    push_decimal(out, n);
    out.append("\n");
    assert(final(out)@ =~= old(out)@ + entry_line(key@, decimal_digits(n as nat)));
}

/// A text holding just `key=value` and a line break.
fn entry_text(key: &str, value: &str) -> (r: String)
    ensures
        r@ == entry_line(key@, value@),
{
    let mut out = String::new();
    push_entry(&mut out, key, value);
    assert(out@ =~= entry_line(key@, value@));
    out
}

/// `true` or `false`.
fn bool_str(b: bool) -> (r: &'static str)
    ensures
        r@ == bool_text(b),
{
    if b {
        "true"
    } else {
        "false"
    }
}

/// The empty text.
fn empty_str() -> (r: &'static str)
    ensures
        r@ == Seq::<char>::empty(),
{
    proof {
        reveal_strlit("");
    }
    ""
}

/// The text of an optional setting, empty when absent.
fn str_or_empty(o: &Option<String>) -> (r: &str)
    ensures
        r@ == text_or_empty(crate::settings::opt_text(*o)),
{
    match o {
        Some(s) => s.as_str(),
        None => empty_str(),
    }
}

/// The first floating-point entry for `s`.
fn find_float(floats: &Vec<FloatEntry>, s: FloatSetting) -> (r: Option<&str>)
    ensures
        match r {
            Some(t) => float_value(floats_view(floats@), s) == Some(t@),
            None => float_value(floats_view(floats@), s) is None,
        },
{
    let ghost f = floats_view(floats@);
    assert(f.subrange(0, f.len() as int) =~= f);
    let mut i: usize = 0;
    while i < floats.len()
        invariant
            i <= floats@.len(),
            f == floats_view(floats@),
            f.len() == floats@.len(),
            float_value(f, s) == float_value(f.subrange(i as int, f.len() as int), s),
        decreases floats@.len() - i,
    {
        let ghost rest = f.subrange(i as int, f.len() as int);
        assert(rest.drop_first() =~= f.subrange(i + 1, f.len() as int));
        if floats[i].setting == s {
            return Some(floats[i].value.as_str());
        }
        i = i + 1;
    }
    None
}

/// The lines of a device.
fn device_text(keys: (&str, &str, &str), d: &DeviceSettings) -> (r: String)
    ensures
        r@ == device_lines((keys.0@, keys.1@, keys.2@), d@),
{
    let mut out = entry_text(keys.0, str_or_empty(&d.port));
    push_entry(&mut out, keys.1, bool_str(d.enabled));
    push_entry(&mut out, keys.2, bool_str(d.show_window));
    out
}

/// The opening block.
fn head_text(s: &ServerSettings) -> (r: String)
    ensures
        r@ == head_lines(s@),
{
    let mut out = entry_text("tci", str_or_empty(&s.radio.tci_addr));
    push_entry(&mut out, "thetis_path", str_or_empty(&s.radio.thetis_path));
    push_entry(&mut out, "yaesu_port", str_or_empty(&s.radio.yaesu_port));
    push_entry(&mut out, "yaesu_enabled", bool_str(s.radio.yaesu_enabled));
    push_number_entry(&mut out, "yaesu_baud", s.radio.yaesu_baud as u64);
    push_entry(&mut out, "yaesu_audio", str_or_empty(&s.radio.yaesu_audio_device));
    push_entry(&mut out, "amplitec_port", str_or_empty(&s.amplitec.port));
    push_entry(&mut out, "amplitec_enabled", bool_str(s.amplitec.enabled));
    push_entry(&mut out, "amplitec_window", bool_str(s.amplitec.show_window));
    push_entry(&mut out, "tuner_window", bool_str(s.tuners.show_window));
    out.append(device_text(("spe_port", "spe_enabled", "spe_window"), &s.spe).as_str());
    out.append(device_text(("rf2k_addr", "rf2k_enabled", "rf2k_window"), &s.rf2k).as_str());
    out.append(
        device_text(("ultrabeam_port", "ultrabeam_enabled", "ultrabeam_window"), &s.ultrabeam).as_str(),
    );
    out.append(device_text(("rotor_addr", "rotor_enabled", "rotor_window"), &s.rotor).as_str());
    out
}

/// Appends a line when its value is there.
fn push_optional(out: &mut String, key: &str, value: Option<&str>)
    ensures
        final(out)@ == old(out)@ + optional_line(
            key@,
            match value {
                Some(v) => Some(v@),
                None => None,
            },
        ),
{
    match value {
        Some(v) => push_entry(out, key, v),
        None => {
            assert(out@ =~= old(out)@ + Seq::<char>::empty());
        },
    }
}

/// The lines of a tuner slot.
fn tuner_text(
    keys: (&str, &str, &str, &str, &str, &str),
    t: &TunerSettings,
    floats: &Vec<FloatEntry>,
    slot: usize,
) -> (r: String)
    ensures
        r@ == tuner_lines(
            (keys.0@, keys.1@, keys.2@, keys.3@, keys.4@, keys.5@),
            t@,
            floats_view(floats@),
            slot,
        ),
{
    let mut out = entry_text(keys.0, bool_str(t.enabled));
    push_entry(&mut out, keys.1, t.model.as_str());
    push_entry(&mut out, keys.2, t.mcp_serial.as_str());
    match t.amplitec_pos {
        Some(n) => push_number_entry(&mut out, keys.3, n as u64),
        None => push_entry(&mut out, keys.3, empty_str()),
    }
    push_optional(&mut out, keys.4, find_float(floats, FloatSetting::TunerThreshold { slot: slot }));
    push_optional(&mut out, keys.5, find_float(floats, FloatSetting::TunerHysteresis { slot: slot }));
    out
}

/// The six antenna labels.
fn labels_text(labels: &[String; 6]) -> (r: String)
    ensures
        r@ == label_lines(crate::settings::labels_view(*labels)),
{
    let mut out = entry_text("amplitec_label1", labels[0].as_str());
    push_entry(&mut out, "amplitec_label2", labels[1].as_str());
    push_entry(&mut out, "amplitec_label3", labels[2].as_str());
    push_entry(&mut out, "amplitec_label4", labels[3].as_str());
    push_entry(&mut out, "amplitec_label5", labels[4].as_str());
    push_entry(&mut out, "amplitec_label6", labels[5].as_str());
    out
}

/// A window's two geometry lines when both values are there.
fn pair_text(keys: (&str, &str), a: Option<&str>, b: Option<&str>) -> (r: String)
    ensures
        r@ == pair_lines(
            (keys.0@, keys.1@),
            match a {
                Some(v) => Some(v@),
                None => None,
            },
            match b {
                Some(v) => Some(v@),
                None => None,
            },
        ),
{
    match (a, b) {
        (Some(x), Some(y)) => {
            let mut out = entry_text(keys.0, x);
            push_entry(&mut out, keys.1, y);
            out
        },
        _ => String::new(),
    }
}

/// The position lines of a window.
fn pos_text(keys: (&str, &str), floats: &Vec<FloatEntry>, w: Window) -> (r: String)
    ensures
        r@ == pos_lines((keys.0@, keys.1@), floats_view(floats@), w),
{
    let x = find_float(floats, FloatSetting::WindowPos { window: w, index: 0 });
    let y = find_float(floats, FloatSetting::WindowPos { window: w, index: 1 });
    pair_text(keys, x, y)
}

/// The size lines of a window.
fn size_text(keys: (&str, &str), floats: &Vec<FloatEntry>, w: Window) -> (r: String)
    ensures
        r@ == size_lines((keys.0@, keys.1@), floats_view(floats@), w),
{
    let x = find_float(floats, FloatSetting::WindowSize { window: w, index: 0 });
    let y = find_float(floats, FloatSetting::WindowSize { window: w, index: 1 });
    pair_text(keys, x, y)
}

/// The window positions.
fn position_text(floats: &Vec<FloatEntry>) -> (r: String)
    ensures
        r@ == position_lines(floats_view(floats@)),
{
    let mut out = pos_text(("tuner_pos_x", "tuner_pos_y"), floats, Window::Tuner);
    out.append(pos_text(("amplitec_pos_x", "amplitec_pos_y"), floats, Window::Amplitec).as_str());
    out.append(pos_text(("spe_pos_x", "spe_pos_y"), floats, Window::Spe).as_str());
    out.append(pos_text(("rf2k_pos_x", "rf2k_pos_y"), floats, Window::Rf2k).as_str());
    out.append(pos_text(("ultrabeam_pos_x", "ultrabeam_pos_y"), floats, Window::Ultrabeam).as_str());
    out.append(pos_text(("rotor_pos_x", "rotor_pos_y"), floats, Window::Rotor).as_str());
    out.append(pos_text(("main_pos_x", "main_pos_y"), floats, Window::Main).as_str());
    out
}

/// The window sizes.
fn window_size_text(floats: &Vec<FloatEntry>) -> (r: String)
    ensures
        r@ == window_size_lines(floats_view(floats@)),
{
    let mut out = size_text(("main_size_w", "main_size_h"), floats, Window::Main);
    out.append(size_text(("tuner_size_w", "tuner_size_h"), floats, Window::Tuner).as_str());
    out.append(size_text(("amplitec_size_w", "amplitec_size_h"), floats, Window::Amplitec).as_str());
    out.append(size_text(("spe_size_w", "spe_size_h"), floats, Window::Spe).as_str());
    out.append(size_text(("rf2k_size_w", "rf2k_size_h"), floats, Window::Rf2k).as_str());
    out.append(size_text(("ultrabeam_size_w", "ultrabeam_size_h"), floats, Window::Ultrabeam).as_str());
    out.append(size_text(("rotor_size_w", "rotor_size_h"), floats, Window::Rotor).as_str());
    out
}

/// The window-geometry block.
fn geometry_text(floats: &Vec<FloatEntry>) -> (r: String)
    ensures
        r@ == geometry_lines(floats_view(floats@)),
{
    position_text(floats).concat(window_size_text(floats).as_str())
}

/// Appends a byte value when it is there.
fn push_optional_number(out: &mut String, key: &str, value: Option<u8>)
    ensures
        final(out)@ == old(out)@ + optional_line(
            key@,
            match value {
                Some(n) => Some(decimal_digits(n as nat)),
                None => None,
            },
        ),
{
    match value {
        Some(n) => push_number_entry(out, key, n as u64),
        None => {
            assert(out@ =~= old(out)@ + Seq::<char>::empty());
        },
    }
}

/// The text of an optional setting, when there.
fn opt_str(o: &Option<String>) -> (r: Option<&str>)
    ensures
        match r {
            Some(v) => Some(v@),
            None => None,
        } == crate::settings::opt_text(*o),
{
    match o {
        Some(s) => Some(s.as_str()),
        None => None,
    }
}

/// The session-state lines.
fn session_text(s: &SessionState) -> (r: String)
    ensures
        r@ == session_lines(*s),
{
    let mut out = entry_text("autostart", bool_str(s.autostart));
    push_number_entry(&mut out, "active_pa", s.active_pa as u64);
    push_optional_number(&mut out, "rf2k_saved_drive", s.rf2k_saved_drive);
    push_optional_number(&mut out, "spe_saved_drive", s.spe_saved_drive);
    push_entry(&mut out, "ultrabeam_show_menu", bool_str(s.ultrabeam_show_menu));
    push_entry(&mut out, "mcp2221_section_expanded", bool_str(s.mcp2221_section_expanded));
    out
}

/// The DX-cluster lines.
fn cluster_text(x: &crate::settings::ClusterSettings) -> (r: String)
    ensures
        r@ == cluster_lines(x@),
{
    let mut out = entry_text("dxcluster_server", x.server.as_str());
    push_entry(&mut out, "dxcluster_callsign", x.callsign.as_str());
    push_entry(&mut out, "dxcluster_enabled", bool_str(x.enabled));
    push_number_entry(&mut out, "dxcluster_expiry_min", x.expiry_min as u64);
    out
}

/// The access lines.
fn access_text(a: &crate::settings::AccessSettings) -> (r: String)
    ensures
        r@ == access_lines(a@),
{
    let mut out = String::new();
    push_optional(&mut out, "password", opt_str(&a.password));
    assert(out@ =~= optional_line("password"@, crate::settings::opt_text(a.password)));
    push_entry(&mut out, "totp_enabled", bool_str(a.totp_enabled));
    push_optional(&mut out, "totp_secret", opt_str(&a.totp_secret));
    push_optional(&mut out, "friendly_name", opt_str(&a.friendly_name));
    out
}

/// The closing block.
fn tail_text(s: &ServerSettings) -> (r: String)
    ensures
        r@ == tail_lines(s.session, s.cluster@, s.access@),
{
    session_text(&s.session).concat(cluster_text(&s.cluster).as_str()).concat(access_text(&s.access).as_str())
}

/// The text the settings are saved as; `floats` gives the floating-point
/// settings, already written as text (each taken from its first entry).
pub fn settings_file_text(s: &ServerSettings, floats: &Vec<FloatEntry>) -> (r: String)
    ensures
        r@ == settings_text(s@, floats_view(floats@)),
{
    let mut out = head_text(s);
    out.append(
        tuner_text(
            ("tuner1_enabled", "tuner1_model", "tuner1_mcp_serial", "tuner1_amplitec_pos", "tuner1_threshold_v", "tuner1_hysteresis_v"),
            &s.tuners.tuner1,
            floats,
            0,
        ).as_str(),
    );
    out.append(
        tuner_text(
            ("tuner2_enabled", "tuner2_model", "tuner2_mcp_serial", "tuner2_amplitec_pos", "tuner2_threshold_v", "tuner2_hysteresis_v"),
            &s.tuners.tuner2,
            floats,
            1,
        ).as_str(),
    );
    out.append(labels_text(&s.amplitec.labels).as_str());
    out.append(geometry_text(floats).as_str());
    out.append(tail_text(s).as_str());
    out
}

} // verus!
