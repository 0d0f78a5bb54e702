//! Reading the server's settings file: one `key=value` entry per line, white
//! space around keys and values ignored, unknown keys and lines without `=`
//! skipped. Floating-point settings are handed back as text for the caller
//! to read as numbers.

use vstd::prelude::*;
use vstd::string::{StrSliceExecFns, StringExecFns};

use crate::scan::{
    chars_of, find_char, has_prefix, index_of_first, parse_unsigned,
    parse_unsigned_span, span_is, span_starts_with, trim, trim_span,
};
use crate::settings::{
    default_settings, floats_view, labels_view, opt_text, AmplitecView, ClusterView, DeviceSettings,
    DeviceView, FloatEntry, FloatSetting, RadioView, ServerSettings, SessionState, SettingsView,
    TunerModel, TunerSettings, TunerSettingsView, TunerSlotsView, Window, AccessView,
};

verus! {

/// The floating-point settings met so far, in file order, with their text.
pub type FloatList = Seq<(FloatSetting, Seq<char>)>;

/// A text setting: none when the value is empty.
pub open spec fn non_empty(v: Seq<char>) -> Option<Seq<char>> {
    if v.len() == 0 {
        None
    } else {
        Some(v)
    }
}

/// An antenna position: a number from 1 to 6, none otherwise.
pub open spec fn antenna_position(v: Seq<char>) -> Option<u8> {
    match parse_unsigned(v, 255) {
        Some(n) => if 1 <= n <= 6 {
            Some(n as u8)
        } else {
            None
        },
        None => None,
    }
}

/// A saved drive level: none when empty or not a byte value.
pub open spec fn saved_drive(v: Seq<char>) -> Option<u8> {
    if v.len() == 0 {
        None
    } else {
        match parse_unsigned(v, 255) {
            Some(n) => Some(n as u8),
            None => None,
        }
    }
}

/// Label `index` (counted from 1) set to `v`, when `index` reads as 1..=6.
pub open spec fn label_entry(a: AmplitecView, index: Seq<char>, v: Seq<char>) -> AmplitecView {
    match parse_unsigned(index, usize::MAX as int) {
        Some(n) => if 1 <= n <= 6 {
            AmplitecView { labels: a.labels.update(n - 1, v), ..a }
        } else {
            a
        },
        None => a,
    }
}

/// `s` without its first `n` characters.
pub open spec fn skip(s: Seq<char>, n: nat) -> Seq<char> {
    s.subrange(n as int, s.len() as int)
}

/// The radio-link keys.
pub open spec fn radio_keys(c: SettingsView, k: Seq<char>, v: Seq<char>) -> Option<SettingsView> {
    let r = c.radio;
    if k == "tci"@ {
        Some(SettingsView { radio: RadioView { tci_addr: non_empty(v), ..r }, ..c })
    } else if k == "input"@ || k == "input2"@ || k == "output"@ || k == "anan_interface"@ {
        Some(c)
    } else if k == "thetis_path"@ {
        Some(SettingsView { radio: RadioView { thetis_path: non_empty(v), ..r }, ..c })
    } else if k == "yaesu_port"@ {
        Some(SettingsView { radio: RadioView { yaesu_port: non_empty(v), ..r }, ..c })
    } else if k == "yaesu_enabled"@ {
        Some(SettingsView { radio: RadioView { yaesu_enabled: v != "false"@, ..r }, ..c })
    } else if k == "yaesu_baud"@ {
        match parse_unsigned(v, u32::MAX as int) {
            Some(n) => Some(SettingsView { radio: RadioView { yaesu_baud: n as u32, ..r }, ..c }),
            None => Some(c),
        }
    } else if k == "yaesu_audio"@ {
        Some(SettingsView { radio: RadioView { yaesu_audio_device: non_empty(v), ..r }, ..c })
    } else {
        None
    }
}

/// The antenna-switch keys.
pub open spec fn amplitec_keys(c: SettingsView, k: Seq<char>, v: Seq<char>) -> Option<SettingsView> {
    let a = c.amplitec;
    if k == "amplitec_port"@ {
        Some(SettingsView { amplitec: AmplitecView { port: non_empty(v), ..a }, ..c })
    } else if k == "amplitec_enabled"@ {
        Some(SettingsView { amplitec: AmplitecView { enabled: v != "false"@, ..a }, ..c })
    } else if has_prefix(k, "amplitec_label"@) {
        Some(SettingsView { amplitec: label_entry(a, skip(k, "amplitec_label"@.len()), v), ..c })
    } else if has_prefix(k, "amplitec_a"@) {
        Some(SettingsView { amplitec: label_entry(a, skip(k, "amplitec_a"@.len()), v), ..c })
    } else if has_prefix(k, "amplitec_b"@) {
        Some(c)
    } else if k == "amplitec_window"@ {
        Some(SettingsView { amplitec: AmplitecView { show_window: v == "true"@, ..a }, ..c })
    } else {
        None
    }
}

/// One `tunerN_<sub>` entry applied to a tuner slot.
pub open spec fn tuner_entry(
    t: TunerSettingsView,
    f: FloatList,
    slot: usize,
    sub: Seq<char>,
    v: Seq<char>,
) -> (TunerSettingsView, FloatList) {
    if sub == "enabled"@ {
        (TunerSettingsView { enabled: v != "false"@, ..t }, f)
    } else if sub == "model"@ {
        (TunerSettingsView { model: TunerModel::spec_parse(v), ..t }, f)
    } else if sub == "mcp_serial"@ {
        (TunerSettingsView { mcp_serial: v, ..t }, f)
    } else if sub == "amplitec_pos"@ {
        (TunerSettingsView { amplitec_pos: antenna_position(v), ..t }, f)
    } else if sub == "threshold_v"@ {
        (t, f.push((FloatSetting::TunerThreshold { slot: slot }, v)))
    } else if sub == "hysteresis_v"@ {
        (t, f.push((FloatSetting::TunerHysteresis { slot: slot }, v)))
    } else {
        (t, f)
    }
}

/// The tuner keys, and the saved positions of the tuner and switch windows.
pub open spec fn tuner_keys(c: SettingsView, f: FloatList, k: Seq<char>, v: Seq<char>) -> Option<
    (SettingsView, FloatList),
> {
    let ts = c.tuners;
    if k == "tuner_port"@ {
        Some((c, f))
    } else if k == "tuner_enabled"@ {
        Some(
            (
                SettingsView {
                    tuners: TunerSlotsView {
                        tuner1: TunerSettingsView { enabled: v != "false"@, ..ts.tuner1 },
                        ..ts
                    },
                    ..c
                },
                f,
            ),
        )
    } else if k == "tuner_assume_tuned"@ {
        Some((c, f))
    } else if has_prefix(k, "tuner1_"@) {
        let (t, f2) = tuner_entry(ts.tuner1, f, 0, skip(k, "tuner1_"@.len()), v);
        Some((SettingsView { tuners: TunerSlotsView { tuner1: t, ..ts }, ..c }, f2))
    } else if has_prefix(k, "tuner2_"@) {
        let (t, f2) = tuner_entry(ts.tuner2, f, 1, skip(k, "tuner2_"@.len()), v);
        Some((SettingsView { tuners: TunerSlotsView { tuner2: t, ..ts }, ..c }, f2))
    } else if k == "tuner_window"@ {
        Some((SettingsView { tuners: TunerSlotsView { show_window: v == "true"@, ..ts }, ..c }, f))
    } else if k == "tuner_safe_drive"@ {
        Some((c, f))
    } else if k == "tuner_pos_x"@ {
        Some((c, f.push((FloatSetting::WindowPos { window: Window::Tuner, index: 0 }, v))))
    } else if k == "tuner_pos_y"@ {
        Some((c, f.push((FloatSetting::WindowPos { window: Window::Tuner, index: 1 }, v))))
    } else if k == "amplitec_pos_x"@ {
        Some((c, f.push((FloatSetting::WindowPos { window: Window::Amplitec, index: 0 }, v))))
    } else if k == "amplitec_pos_y"@ {
        Some((c, f.push((FloatSetting::WindowPos { window: Window::Amplitec, index: 1 }, v))))
    } else {
        None
    }
}

/// The five keys of one device: its port (or address), whether it is
/// enabled, whether its window is shown, and its window position.
pub open spec fn device_keys(
    d: DeviceView,
    f: FloatList,
    w: Window,
    keys: (Seq<char>, Seq<char>, Seq<char>, Seq<char>, Seq<char>),
    k: Seq<char>,
    v: Seq<char>,
) -> Option<(DeviceView, FloatList)> {
    if k == keys.0 {
        Some((DeviceView { port: non_empty(v), ..d }, f))
    } else if k == keys.1 {
        Some((DeviceView { enabled: v != "false"@, ..d }, f))
    } else if k == keys.2 {
        Some((DeviceView { show_window: v == "true"@, ..d }, f))
    } else if k == keys.3 {
        Some((d, f.push((FloatSetting::WindowPos { window: w, index: 0 }, v))))
    } else if k == keys.4 {
        Some((d, f.push((FloatSetting::WindowPos { window: w, index: 1 }, v))))
    } else {
        None
    }
}

/// The main window's position and every window's size.
pub open spec fn window_key(k: Seq<char>) -> Option<FloatSetting> {
    if k == "main_pos_x"@ {
        Some(FloatSetting::WindowPos { window: Window::Main, index: 0 })
    } else if k == "main_pos_y"@ {
        Some(FloatSetting::WindowPos { window: Window::Main, index: 1 })
    } else if k == "main_size_w"@ {
        Some(FloatSetting::WindowSize { window: Window::Main, index: 0 })
    } else if k == "main_size_h"@ {
        Some(FloatSetting::WindowSize { window: Window::Main, index: 1 })
    } else if k == "tuner_size_w"@ {
        Some(FloatSetting::WindowSize { window: Window::Tuner, index: 0 })
    } else if k == "tuner_size_h"@ {
        Some(FloatSetting::WindowSize { window: Window::Tuner, index: 1 })
    } else if k == "amplitec_size_w"@ {
        Some(FloatSetting::WindowSize { window: Window::Amplitec, index: 0 })
    } else if k == "amplitec_size_h"@ {
        Some(FloatSetting::WindowSize { window: Window::Amplitec, index: 1 })
    } else if k == "spe_size_w"@ {
        Some(FloatSetting::WindowSize { window: Window::Spe, index: 0 })
    } else if k == "spe_size_h"@ {
        Some(FloatSetting::WindowSize { window: Window::Spe, index: 1 })
    } else if k == "rf2k_size_w"@ {
        Some(FloatSetting::WindowSize { window: Window::Rf2k, index: 0 })
    } else if k == "rf2k_size_h"@ {
        Some(FloatSetting::WindowSize { window: Window::Rf2k, index: 1 })
    } else if k == "ultrabeam_size_w"@ {
        Some(FloatSetting::WindowSize { window: Window::Ultrabeam, index: 0 })
    } else if k == "ultrabeam_size_h"@ {
        Some(FloatSetting::WindowSize { window: Window::Ultrabeam, index: 1 })
    } else if k == "rotor_size_w"@ {
        Some(FloatSetting::WindowSize { window: Window::Rotor, index: 0 })
    } else if k == "rotor_size_h"@ {
        Some(FloatSetting::WindowSize { window: Window::Rotor, index: 1 })
    } else {
        None
    }
}

/// The keys of the state kept across restarts.
pub open spec fn session_keys(c: SettingsView, k: Seq<char>, v: Seq<char>) -> Option<SettingsView> {
    let s = c.session;
    if k == "autostart"@ {
        Some(SettingsView { session: SessionState { autostart: v == "true"@, ..s }, ..c })
    } else if k == "active_pa"@ {
        let pa: u8 = match parse_unsigned(v, 255) {
            Some(n) => n as u8,
            None => 0,
        };
        Some(SettingsView { session: SessionState { active_pa: pa, ..s }, ..c })
    } else if k == "rf2k_saved_drive"@ {
        Some(SettingsView { session: SessionState { rf2k_saved_drive: saved_drive(v), ..s }, ..c })
    } else if k == "spe_saved_drive"@ {
        Some(SettingsView { session: SessionState { spe_saved_drive: saved_drive(v), ..s }, ..c })
    } else if k == "ultrabeam_show_menu"@ {
        Some(SettingsView { session: SessionState { ultrabeam_show_menu: v == "true"@, ..s }, ..c })
    } else if k == "mcp2221_section_expanded"@ {
        Some(
            SettingsView {
                session: SessionState { mcp2221_section_expanded: v != "false"@, ..s },
                ..c
            },
        )
    } else {
        None
    }
}

/// The DX-cluster keys; an empty server or callsign keeps the one before.
pub open spec fn cluster_keys(c: SettingsView, k: Seq<char>, v: Seq<char>) -> Option<SettingsView> {
    let x = c.cluster;
    if k == "dxcluster_server"@ {
        if v.len() > 0 {
            Some(SettingsView { cluster: ClusterView { server: v, ..x }, ..c })
        } else {
            Some(c)
        }
    } else if k == "dxcluster_callsign"@ {
        if v.len() > 0 {
            Some(SettingsView { cluster: ClusterView { callsign: v, ..x }, ..c })
        } else {
            Some(c)
        }
    } else if k == "dxcluster_enabled"@ {
        Some(SettingsView { cluster: ClusterView { enabled: v != "false"@, ..x }, ..c })
    } else if k == "dxcluster_expiry_min"@ {
        match parse_unsigned(v, u16::MAX as int) {
            Some(n) => {
                let m: u16 = if n < 1 {
                    1
                } else {
                    n as u16
                };
                Some(SettingsView { cluster: ClusterView { expiry_min: m, ..x }, ..c })
            },
            None => Some(c),
        }
    } else {
        None
    }
}

/// The access keys; an empty value keeps the one before. The password and
/// TOTP secret are taken as the file holds them; no obfuscation is undone
/// here.
pub open spec fn access_keys(c: SettingsView, k: Seq<char>, v: Seq<char>) -> Option<SettingsView> {
    let x = c.access;
    if k == "password"@ {
        if v.len() > 0 {
            Some(SettingsView { access: AccessView { password: Some(v), ..x }, ..c })
        } else {
            Some(c)
        }
    } else if k == "totp_secret"@ {
        if v.len() > 0 {
            Some(SettingsView { access: AccessView { totp_secret: Some(v), ..x }, ..c })
        } else {
            Some(c)
        }
    } else if k == "totp_enabled"@ {
        Some(SettingsView { access: AccessView { totp_enabled: v == "true"@, ..x }, ..c })
    } else if k == "friendly_name"@ {
        if v.len() > 0 {
            Some(SettingsView { access: AccessView { friendly_name: Some(v), ..x }, ..c })
        } else {
            Some(c)
        }
    } else {
        None
    }
}

/// The keys of the SPE amplifier.
pub open spec fn spe_keys() -> (Seq<char>, Seq<char>, Seq<char>, Seq<char>, Seq<char>) {
    ("spe_port"@, "spe_enabled"@, "spe_window"@, "spe_pos_x"@, "spe_pos_y"@)
}

/// The keys of the RF2K amplifier.
pub open spec fn rf2k_keys() -> (Seq<char>, Seq<char>, Seq<char>, Seq<char>, Seq<char>) {
    ("rf2k_addr"@, "rf2k_enabled"@, "rf2k_window"@, "rf2k_pos_x"@, "rf2k_pos_y"@)
}

/// The keys of the UltraBeam controller.
pub open spec fn ultrabeam_keys() -> (Seq<char>, Seq<char>, Seq<char>, Seq<char>, Seq<char>) {
    ("ultrabeam_port"@, "ultrabeam_enabled"@, "ultrabeam_window"@, "ultrabeam_pos_x"@, "ultrabeam_pos_y"@)
}

/// The keys of the rotor controller.
pub open spec fn rotor_keys() -> (Seq<char>, Seq<char>, Seq<char>, Seq<char>, Seq<char>) {
    ("rotor_addr"@, "rotor_enabled"@, "rotor_window"@, "rotor_pos_x"@, "rotor_pos_y"@)
}

/// One entry with key `k` and value `v` (both trimmed) applied to the
/// settings; the key groups are tried in file-format order and an unknown
/// key changes nothing.
#[verifier::opaque]
pub open spec fn apply_entry(c: SettingsView, f: FloatList, k: Seq<char>, v: Seq<char>) -> (
    SettingsView,
    FloatList,
) {
    if let Some(c2) = radio_keys(c, k, v) {
        (c2, f)
    } else if let Some(c2) = amplitec_keys(c, k, v) {
        (c2, f)
    } else if let Some(r) = tuner_keys(c, f, k, v) {
        r
    } else if let Some((d, f2)) = device_keys(c.spe, f, Window::Spe, spe_keys(), k, v) {
        (SettingsView { spe: d, ..c }, f2)
    } else if let Some((d, f2)) = device_keys(c.rf2k, f, Window::Rf2k, rf2k_keys(), k, v) {
        (SettingsView { rf2k: d, ..c }, f2)
    } else if let Some((d, f2)) = device_keys(c.ultrabeam, f, Window::Ultrabeam, ultrabeam_keys(), k, v) {
        (SettingsView { ultrabeam: d, ..c }, f2)
    } else if let Some((d, f2)) = device_keys(c.rotor, f, Window::Rotor, rotor_keys(), k, v) {
        (SettingsView { rotor: d, ..c }, f2)
    } else if let Some(w) = window_key(k) {
        (c, f.push((w, v)))
    } else if let Some(c2) = session_keys(c, k, v) {
        (c2, f)
    } else if let Some(c2) = cluster_keys(c, k, v) {
        (c2, f)
    } else if let Some(c2) = access_keys(c, k, v) {
        (c2, f)
    } else {
        (c, f)
    }
}

/// One line applied to the settings: a line holding `=` is an entry whose
/// key is the trimmed text before the first `=` and whose value is the
/// trimmed text after it; any other line changes nothing.
#[verifier::opaque]
pub open spec fn apply_line(st: (SettingsView, FloatList), line: Seq<char>) -> (SettingsView, FloatList) {
    let t = trim(line);
    let e = index_of_first(t, '=');
    if e < t.len() {
        apply_entry(st.0, st.1, trim(t.subrange(0, e as int)), trim(skip(t, e + 1)))
    } else {
        st
    }
}

/// The settings after every line of `s` (lines end at `\n`) is applied in
/// turn.
#[verifier::opaque]
pub open spec fn apply_lines(st: (SettingsView, FloatList), s: Seq<char>) -> (SettingsView, FloatList)
    decreases s.len(),
{
    let e = index_of_first(s, '\n');
    let next = apply_line(st, s.subrange(0, e as int));
    if e < s.len() {
        apply_lines(next, skip(s, e + 1))
    } else {
        next
    }
}

/// The settings a file's text gives, starting from the defaults.
pub open spec fn settings_from_text(text: Seq<char>, thetis_path: Option<Seq<char>>) -> (
    SettingsView,
    FloatList,
) {
    apply_lines((default_settings(thetis_path), Seq::empty()), text)
}

/// A copy of `chars[lo..hi]`, cut from the text it was taken from.
fn text_span(text: &str, chars: &Vec<char>, lo: usize, hi: usize) -> (r: String)
    requires
        chars@ == text@,
        lo <= hi <= chars@.len(),
    ensures
        r@ == chars@.subrange(lo as int, hi as int),
{
    String::from_str(text.substring_char(lo, hi))
}

/// `chars[lo..hi]` as a text setting: none when empty.
fn non_empty_span(text: &str, chars: &Vec<char>, lo: usize, hi: usize) -> (r: Option<String>)
    requires
        chars@ == text@,
        lo <= hi <= chars@.len(),
    ensures
        opt_text(r) == non_empty(chars@.subrange(lo as int, hi as int)),
{
    if lo == hi {
        None
    } else {
        Some(text_span(text, chars, lo, hi))
    }
}

/// Applies a radio-link key; false when the key is not one of them.
fn radio_entry(
    s: &mut ServerSettings,
    text: &str,
    chars: &Vec<char>,
    kl: usize,
    kh: usize,
    vl: usize,
    vh: usize,
) -> (handled: bool)
    requires
        chars@ == text@,
        kl <= kh <= chars@.len(),
        vl <= vh <= chars@.len(),
    ensures
        match radio_keys(
            old(s)@,
            chars@.subrange(kl as int, kh as int),
            chars@.subrange(vl as int, vh as int),
        ) {
            Some(c) => handled && final(s)@ == c,
            None => !handled && final(s)@ == old(s)@,
        },
{
    if span_is(chars, kl, kh, "tci") {
        s.radio.tci_addr = non_empty_span(text, chars, vl, vh);
    } else if span_is(chars, kl, kh, "input") || span_is(chars, kl, kh, "input2") || span_is(
        chars,
        kl,
        kh,
        "output",
    ) || span_is(chars, kl, kh, "anan_interface") {
    } else if span_is(chars, kl, kh, "thetis_path") {
        s.radio.thetis_path = non_empty_span(text, chars, vl, vh);
    } else if span_is(chars, kl, kh, "yaesu_port") {
        s.radio.yaesu_port = non_empty_span(text, chars, vl, vh);
    } else if span_is(chars, kl, kh, "yaesu_enabled") {
        s.radio.yaesu_enabled = !span_is(chars, vl, vh, "false");
    } else if span_is(chars, kl, kh, "yaesu_baud") {
        if let Some(n) = parse_unsigned_span(chars, vl, vh, 0xffff_ffff) {
            s.radio.yaesu_baud = n as u32;
        }
    } else if span_is(chars, kl, kh, "yaesu_audio") {
        s.radio.yaesu_audio_device = non_empty_span(text, chars, vl, vh);
    } else {
        return false;
    }
    true
}

/// Sets label `chars[il..ih]` (counted from 1) to `chars[vl..vh]` when the
/// index reads as 1..=6.
fn label_entry_exec(
    a: &mut crate::settings::AmplitecSettings,
    text: &str,
    chars: &Vec<char>,
    il: usize,
    ih: usize,
    vl: usize,
    vh: usize,
)
    requires
        chars@ == text@,
        il <= ih <= chars@.len(),
        vl <= vh <= chars@.len(),
    ensures
        final(a)@ == label_entry(
            old(a)@,
            chars@.subrange(il as int, ih as int),
            chars@.subrange(vl as int, vh as int),
        ),
{
    if let Some(n) = parse_unsigned_span(chars, il, ih, usize::MAX as u64) {
        if 1 <= n && n <= 6 {
            let i = (n - 1) as usize;
            let label = text_span(text, chars, vl, vh);
            a.labels[i] = label;
            assert(labels_view(a.labels) =~= labels_view(old(a).labels).update(
                i as int,
                chars@.subrange(vl as int, vh as int),
            ));
        }
    }
}

/// Applies an antenna-switch key; false when the key is not one of them.
fn amplitec_entry(
    s: &mut ServerSettings,
    text: &str,
    chars: &Vec<char>,
    kl: usize,
    kh: usize,
    vl: usize,
    vh: usize,
) -> (handled: bool)
    requires
        chars@ == text@,
        kl <= kh <= chars@.len(),
        vl <= vh <= chars@.len(),
    ensures
        match amplitec_keys(
            old(s)@,
            chars@.subrange(kl as int, kh as int),
            chars@.subrange(vl as int, vh as int),
        ) {
            Some(c) => handled && final(s)@ == c,
            None => !handled && final(s)@ == old(s)@,
        },
{
    let ghost k = chars@.subrange(kl as int, kh as int);
    if span_is(chars, kl, kh, "amplitec_port") {
        s.amplitec.port = non_empty_span(text, chars, vl, vh);
    } else if span_is(chars, kl, kh, "amplitec_enabled") {
        s.amplitec.enabled = !span_is(chars, vl, vh, "false");
    } else if let Some(p) = span_starts_with(chars, kl, kh, "amplitec_label") {
        assert(skip(k, "amplitec_label"@.len()) =~= chars@.subrange(p as int, kh as int));
        label_entry_exec(&mut s.amplitec, text, chars, p, kh, vl, vh);
    } else if let Some(p) = span_starts_with(chars, kl, kh, "amplitec_a") {
        assert(skip(k, "amplitec_a"@.len()) =~= chars@.subrange(p as int, kh as int));
        label_entry_exec(&mut s.amplitec, text, chars, p, kh, vl, vh);
    } else if span_starts_with(chars, kl, kh, "amplitec_b").is_some() {
    } else if span_is(chars, kl, kh, "amplitec_window") {
        s.amplitec.show_window = span_is(chars, vl, vh, "true");
    } else {
        return false;
    }
    true
}

/// Adds a floating-point setting with the text `chars[vl..vh]`.
fn push_float(
    floats: &mut Vec<FloatEntry>,
    setting: FloatSetting,
    text: &str,
    chars: &Vec<char>,
    vl: usize,
    vh: usize,
)
    requires
        chars@ == text@,
        vl <= vh <= chars@.len(),
    ensures
        floats_view(final(floats)@) == floats_view(old(floats)@).push(
            (setting, chars@.subrange(vl as int, vh as int)),
        ),
{
    let value = text_span(text, chars, vl, vh);
    floats.push(FloatEntry { setting: setting, value: value });
    assert(floats_view(floats@) =~= floats_view(old(floats)@).push(
        (setting, chars@.subrange(vl as int, vh as int)),
    ));
}

/// Applies one `tunerN_<sub>` entry to tuner slot `slot`; unknown sub-keys
/// change nothing.
fn parse_tuner_key(
    t: &mut TunerSettings,
    floats: &mut Vec<FloatEntry>,
    slot: usize,
    text: &str,
    chars: &Vec<char>,
    sl: usize,
    sh: usize,
    vl: usize,
    vh: usize,
)
    requires
        chars@ == text@,
        sl <= sh <= chars@.len(),
        vl <= vh <= chars@.len(),
    ensures
        (final(t)@, floats_view(final(floats)@)) == tuner_entry(
            old(t)@,
            floats_view(old(floats)@),
            slot,
            chars@.subrange(sl as int, sh as int),
            chars@.subrange(vl as int, vh as int),
        ),
{
    if span_is(chars, sl, sh, "enabled") {
        t.enabled = !span_is(chars, vl, vh, "false");
    } else if span_is(chars, sl, sh, "model") {
        t.model = TunerModel::parse_span(chars, vl, vh);
    } else if span_is(chars, sl, sh, "mcp_serial") {
        t.mcp_serial = text_span(text, chars, vl, vh);
    } else if span_is(chars, sl, sh, "amplitec_pos") {
        t.amplitec_pos = match parse_unsigned_span(chars, vl, vh, 255) {
            Some(n) => if 1 <= n && n <= 6 {
                Some(n as u8)
            } else {
                None
            },
            None => None,
        };
    } else if span_is(chars, sl, sh, "threshold_v") {
        push_float(floats, FloatSetting::TunerThreshold { slot: slot }, text, chars, vl, vh);
    } else if span_is(chars, sl, sh, "hysteresis_v") {
        push_float(floats, FloatSetting::TunerHysteresis { slot: slot }, text, chars, vl, vh);
    }
}

/// Applies a tuner key; false when the key is not one of them.
fn tuner_entry_exec(
    s: &mut ServerSettings,
    floats: &mut Vec<FloatEntry>,
    text: &str,
    chars: &Vec<char>,
    kl: usize,
    kh: usize,
    vl: usize,
    vh: usize,
) -> (handled: bool)
    requires
        chars@ == text@,
        kl <= kh <= chars@.len(),
        vl <= vh <= chars@.len(),
    ensures
        match tuner_keys(
            old(s)@,
            floats_view(old(floats)@),
            chars@.subrange(kl as int, kh as int),
            chars@.subrange(vl as int, vh as int),
        ) {
            Some(r) => handled && (final(s)@, floats_view(final(floats)@)) == r,
            None => !handled && final(s)@ == old(s)@ && final(floats)@ == old(floats)@,
        },
{
    let ghost k = chars@.subrange(kl as int, kh as int);
    if span_is(chars, kl, kh, "tuner_port") {
    } else if span_is(chars, kl, kh, "tuner_enabled") {
        s.tuners.tuner1.enabled = !span_is(chars, vl, vh, "false");
    } else if span_is(chars, kl, kh, "tuner_assume_tuned") {
    } else if let Some(p) = span_starts_with(chars, kl, kh, "tuner1_") {
        assert(skip(k, "tuner1_"@.len()) =~= chars@.subrange(p as int, kh as int));
        parse_tuner_key(&mut s.tuners.tuner1, floats, 0, text, chars, p, kh, vl, vh);
    } else if let Some(p) = span_starts_with(chars, kl, kh, "tuner2_") {
        assert(skip(k, "tuner2_"@.len()) =~= chars@.subrange(p as int, kh as int));
        parse_tuner_key(&mut s.tuners.tuner2, floats, 1, text, chars, p, kh, vl, vh);
    } else if span_is(chars, kl, kh, "tuner_window") {
        s.tuners.show_window = span_is(chars, vl, vh, "true");
    } else if span_is(chars, kl, kh, "tuner_safe_drive") {
    } else if span_is(chars, kl, kh, "tuner_pos_x") {
        push_float(floats, FloatSetting::WindowPos { window: Window::Tuner, index: 0 }, text, chars, vl, vh);
    } else if span_is(chars, kl, kh, "tuner_pos_y") {
        push_float(floats, FloatSetting::WindowPos { window: Window::Tuner, index: 1 }, text, chars, vl, vh);
    } else if span_is(chars, kl, kh, "amplitec_pos_x") {
        push_float(floats, FloatSetting::WindowPos { window: Window::Amplitec, index: 0 }, text, chars, vl, vh);
    } else if span_is(chars, kl, kh, "amplitec_pos_y") {
        push_float(floats, FloatSetting::WindowPos { window: Window::Amplitec, index: 1 }, text, chars, vl, vh);
    } else {
        return false;
    }
    true
}

/// Applies one of a device's five keys, named by `keys`; false when the key
/// is not one of them.
fn device_entry(
    d: &mut DeviceSettings,
    floats: &mut Vec<FloatEntry>,
    w: Window,
    keys: (&str, &str, &str, &str, &str),
    text: &str,
    chars: &Vec<char>,
    kl: usize,
    kh: usize,
    vl: usize,
    vh: usize,
) -> (handled: bool)
    requires
        chars@ == text@,
        kl <= kh <= chars@.len(),
        vl <= vh <= chars@.len(),
    ensures
        match device_keys(
            old(d)@,
            floats_view(old(floats)@),
            w,
            (keys.0@, keys.1@, keys.2@, keys.3@, keys.4@),
            chars@.subrange(kl as int, kh as int),
            chars@.subrange(vl as int, vh as int),
        ) {
            Some(r) => handled && (final(d)@, floats_view(final(floats)@)) == r,
            None => !handled && final(d)@ == old(d)@ && final(floats)@ == old(floats)@,
        },
{
    if span_is(chars, kl, kh, keys.0) {
        d.port = non_empty_span(text, chars, vl, vh);
    } else if span_is(chars, kl, kh, keys.1) {
        d.enabled = !span_is(chars, vl, vh, "false");
    } else if span_is(chars, kl, kh, keys.2) {
        d.show_window = span_is(chars, vl, vh, "true");
    } else if span_is(chars, kl, kh, keys.3) {
        push_float(floats, FloatSetting::WindowPos { window: w, index: 0 }, text, chars, vl, vh);
    } else if span_is(chars, kl, kh, keys.4) {
        push_float(floats, FloatSetting::WindowPos { window: w, index: 1 }, text, chars, vl, vh);
    } else {
        return false;
    }
    true
}

/// Which window-geometry setting a key names, if it is the main window's
/// position or a window's size.
fn window_key_exec(chars: &Vec<char>, kl: usize, kh: usize) -> (r: Option<FloatSetting>)
    requires
        kl <= kh <= chars@.len(),
    ensures
        r == window_key(chars@.subrange(kl as int, kh as int)),
{
    if span_is(chars, kl, kh, "main_pos_x") {
        Some(FloatSetting::WindowPos { window: Window::Main, index: 0 })
    } else if span_is(chars, kl, kh, "main_pos_y") {
        Some(FloatSetting::WindowPos { window: Window::Main, index: 1 })
    } else if span_is(chars, kl, kh, "main_size_w") {
        Some(FloatSetting::WindowSize { window: Window::Main, index: 0 })
    } else if span_is(chars, kl, kh, "main_size_h") {
        Some(FloatSetting::WindowSize { window: Window::Main, index: 1 })
    } else if span_is(chars, kl, kh, "tuner_size_w") {
        Some(FloatSetting::WindowSize { window: Window::Tuner, index: 0 })
    } else if span_is(chars, kl, kh, "tuner_size_h") {
        Some(FloatSetting::WindowSize { window: Window::Tuner, index: 1 })
    } else if span_is(chars, kl, kh, "amplitec_size_w") {
        Some(FloatSetting::WindowSize { window: Window::Amplitec, index: 0 })
    } else if span_is(chars, kl, kh, "amplitec_size_h") {
        Some(FloatSetting::WindowSize { window: Window::Amplitec, index: 1 })
    } else if span_is(chars, kl, kh, "spe_size_w") {
        Some(FloatSetting::WindowSize { window: Window::Spe, index: 0 })
    } else if span_is(chars, kl, kh, "spe_size_h") {
        Some(FloatSetting::WindowSize { window: Window::Spe, index: 1 })
    } else if span_is(chars, kl, kh, "rf2k_size_w") {
        Some(FloatSetting::WindowSize { window: Window::Rf2k, index: 0 })
    } else if span_is(chars, kl, kh, "rf2k_size_h") {
        Some(FloatSetting::WindowSize { window: Window::Rf2k, index: 1 })
    } else if span_is(chars, kl, kh, "ultrabeam_size_w") {
        Some(FloatSetting::WindowSize { window: Window::Ultrabeam, index: 0 })
    } else if span_is(chars, kl, kh, "ultrabeam_size_h") {
        Some(FloatSetting::WindowSize { window: Window::Ultrabeam, index: 1 })
    } else if span_is(chars, kl, kh, "rotor_size_w") {
        Some(FloatSetting::WindowSize { window: Window::Rotor, index: 0 })
    } else if span_is(chars, kl, kh, "rotor_size_h") {
        Some(FloatSetting::WindowSize { window: Window::Rotor, index: 1 })
    } else {
        None
    }
}

/// `chars[lo..hi]` as a saved drive level.
fn saved_drive_span(chars: &Vec<char>, lo: usize, hi: usize) -> (r: Option<u8>)
    requires
        lo <= hi <= chars@.len(),
    ensures
        r == saved_drive(chars@.subrange(lo as int, hi as int)),
{
    if lo == hi {
        None
    } else {
        match parse_unsigned_span(chars, lo, hi, 255) {
            Some(n) => Some(n as u8),
            None => None,
        }
    }
}

/// Applies a key of the state kept across restarts; false when the key is
/// not one of them.
fn session_entry(s: &mut ServerSettings, chars: &Vec<char>, kl: usize, kh: usize, vl: usize, vh: usize) -> (handled: bool)
    requires
        kl <= kh <= chars@.len(),
        vl <= vh <= chars@.len(),
    ensures
        match session_keys(
            old(s)@,
            chars@.subrange(kl as int, kh as int),
            chars@.subrange(vl as int, vh as int),
        ) {
            Some(c) => handled && final(s)@ == c,
            None => !handled && final(s)@ == old(s)@,
        },
{
    if span_is(chars, kl, kh, "autostart") {
        s.session.autostart = span_is(chars, vl, vh, "true");
    } else if span_is(chars, kl, kh, "active_pa") {
        s.session.active_pa = match parse_unsigned_span(chars, vl, vh, 255) {
            Some(n) => n as u8,
            None => 0,
        };
    } else if span_is(chars, kl, kh, "rf2k_saved_drive") {
        s.session.rf2k_saved_drive = saved_drive_span(chars, vl, vh);
    } else if span_is(chars, kl, kh, "spe_saved_drive") {
        s.session.spe_saved_drive = saved_drive_span(chars, vl, vh);
    } else if span_is(chars, kl, kh, "ultrabeam_show_menu") {
        s.session.ultrabeam_show_menu = span_is(chars, vl, vh, "true");
    } else if span_is(chars, kl, kh, "mcp2221_section_expanded") {
        s.session.mcp2221_section_expanded = !span_is(chars, vl, vh, "false");
    } else {
        return false;
    }
    true
}

/// Applies a DX-cluster key; false when the key is not one of them.
fn cluster_entry(
    s: &mut ServerSettings,
    text: &str,
    chars: &Vec<char>,
    kl: usize,
    kh: usize,
    vl: usize,
    vh: usize,
) -> (handled: bool)
    requires
        chars@ == text@,
        kl <= kh <= chars@.len(),
        vl <= vh <= chars@.len(),
    ensures
        match cluster_keys(
            old(s)@,
            chars@.subrange(kl as int, kh as int),
            chars@.subrange(vl as int, vh as int),
        ) {
            Some(c) => handled && final(s)@ == c,
            None => !handled && final(s)@ == old(s)@,
        },
{
    if span_is(chars, kl, kh, "dxcluster_server") {
        if vl < vh {
            s.cluster.server = text_span(text, chars, vl, vh);
        }
    } else if span_is(chars, kl, kh, "dxcluster_callsign") {
        if vl < vh {
            s.cluster.callsign = text_span(text, chars, vl, vh);
        }
    } else if span_is(chars, kl, kh, "dxcluster_enabled") {
        s.cluster.enabled = !span_is(chars, vl, vh, "false");
    } else if span_is(chars, kl, kh, "dxcluster_expiry_min") {
        if let Some(n) = parse_unsigned_span(chars, vl, vh, 0xffff) {
            s.cluster.expiry_min = if n < 1 {
                1
            } else {
                n as u16
            };
        }
    } else {
        return false;
    }
    true
}

/// Applies an access key; false when the key is not one of them.
fn access_entry(
    s: &mut ServerSettings,
    text: &str,
    chars: &Vec<char>,
    kl: usize,
    kh: usize,
    vl: usize,
    vh: usize,
) -> (handled: bool)
    requires
        chars@ == text@,
        kl <= kh <= chars@.len(),
        vl <= vh <= chars@.len(),
    ensures
        match access_keys(
            old(s)@,
            chars@.subrange(kl as int, kh as int),
            chars@.subrange(vl as int, vh as int),
        ) {
            Some(c) => handled && final(s)@ == c,
            None => !handled && final(s)@ == old(s)@,
        },
{
    if span_is(chars, kl, kh, "password") {
        if vl < vh {
            s.access.password = Some(text_span(text, chars, vl, vh));
        }
    } else if span_is(chars, kl, kh, "totp_secret") {
        if vl < vh {
            s.access.totp_secret = Some(text_span(text, chars, vl, vh));
        }
    } else if span_is(chars, kl, kh, "totp_enabled") {
        s.access.totp_enabled = span_is(chars, vl, vh, "true");
    } else if span_is(chars, kl, kh, "friendly_name") {
        if vl < vh {
            s.access.friendly_name = Some(text_span(text, chars, vl, vh));
        }
    } else {
        return false;
    }
    true
}

/// Applies the entry with key `chars[kl..kh]` and value `chars[vl..vh]`.
fn apply_entry_exec(
    s: &mut ServerSettings,
    floats: &mut Vec<FloatEntry>,
    text: &str,
    chars: &Vec<char>,
    kl: usize,
    kh: usize,
    vl: usize,
    vh: usize,
)
    requires
        chars@ == text@,
        kl <= kh <= chars@.len(),
        vl <= vh <= chars@.len(),
    ensures
        (final(s)@, floats_view(final(floats)@)) == apply_entry(
            old(s)@,
            floats_view(old(floats)@),
            chars@.subrange(kl as int, kh as int),
            chars@.subrange(vl as int, vh as int),
        ),
{
    reveal(apply_entry);
    if radio_entry(s, text, chars, kl, kh, vl, vh) {
        return;
    }
    if amplitec_entry(s, text, chars, kl, kh, vl, vh) {
        return;
    }
    if tuner_entry_exec(s, floats, text, chars, kl, kh, vl, vh) {
        return;
    }
    let spe = ("spe_port", "spe_enabled", "spe_window", "spe_pos_x", "spe_pos_y");
    if device_entry(&mut s.spe, floats, Window::Spe, spe, text, chars, kl, kh, vl, vh) {
        return;
    }
    let rf2k = ("rf2k_addr", "rf2k_enabled", "rf2k_window", "rf2k_pos_x", "rf2k_pos_y");
    if device_entry(&mut s.rf2k, floats, Window::Rf2k, rf2k, text, chars, kl, kh, vl, vh) {
        return;
    }
    let ultrabeam = (
        "ultrabeam_port",
        "ultrabeam_enabled",
        "ultrabeam_window",
        "ultrabeam_pos_x",
        "ultrabeam_pos_y",
    );
    if device_entry(&mut s.ultrabeam, floats, Window::Ultrabeam, ultrabeam, text, chars, kl, kh, vl, vh) {
        return;
    }
    let rotor = ("rotor_addr", "rotor_enabled", "rotor_window", "rotor_pos_x", "rotor_pos_y");
    if device_entry(&mut s.rotor, floats, Window::Rotor, rotor, text, chars, kl, kh, vl, vh) {
        return;
    }
    if let Some(w) = window_key_exec(chars, kl, kh) {
        push_float(floats, w, text, chars, vl, vh);
        return;
    }
    if session_entry(s, chars, kl, kh, vl, vh) {
        return;
    }
    if cluster_entry(s, text, chars, kl, kh, vl, vh) {
        return;
    }
    access_entry(s, text, chars, kl, kh, vl, vh);
}

/// Applies the line `chars[lo..hi]`.
fn apply_line_exec(
    s: &mut ServerSettings,
    floats: &mut Vec<FloatEntry>,
    text: &str,
    chars: &Vec<char>,
    lo: usize,
    hi: usize,
)
    requires
        chars@ == text@,
        lo <= hi <= chars@.len(),
    ensures
        (final(s)@, floats_view(final(floats)@)) == apply_line(
            (old(s)@, floats_view(old(floats)@)),
            chars@.subrange(lo as int, hi as int),
        ),
{
    reveal(apply_line);
    let (a, b) = trim_span(chars, lo, hi);
    let e = find_char(chars, a, b, '=');
    let ghost t = chars@.subrange(a as int, b as int);
    if e < b {
        let (kl, kh) = trim_span(chars, a, e);
        let (vl, vh) = trim_span(chars, e + 1, b);
        assert(t.subrange(0, e - a) =~= chars@.subrange(a as int, e as int));
        assert(skip(t, (e - a + 1) as nat) =~= chars@.subrange(e + 1, b as int));
        apply_entry_exec(s, floats, text, chars, kl, kh, vl, vh);
    }
}

/// Reads the settings file's text: every line is applied in turn to the
/// defaults (with the given launch path). Also returns the floating-point
/// settings met, in file order, with their text.
pub fn load_settings(text: &str, thetis_path: Option<String>) -> (r: (ServerSettings, Vec<FloatEntry>))
    ensures
        (r.0@, floats_view(r.1@)) == settings_from_text(text@, opt_text(thetis_path)),
{
    reveal(apply_lines);
    let chars = chars_of(text);
    let n = chars.len();
    let mut s = ServerSettings::with_thetis_path(thetis_path);
    let mut floats: Vec<FloatEntry> = Vec::new();
    let ghost goal = settings_from_text(text@, opt_text(thetis_path));
    assert(floats_view(floats@) =~= Seq::empty());
    assert(chars@.subrange(0, n as int) =~= chars@);
    let mut start: usize = 0;
    loop
        invariant_except_break
            start <= n,
            n == chars@.len(),
            chars@ == text@,
            goal == apply_lines((s@, floats_view(floats@)), chars@.subrange(start as int, n as int)),
        ensures
            goal == (s@, floats_view(floats@)),
        decreases n - start,
    {
        let e = find_char(&chars, start, n, '\n');
        let ghost rest = chars@.subrange(start as int, n as int);
        proof {
            reveal(apply_lines);
        }
        assert(rest.subrange(0, e - start) =~= chars@.subrange(start as int, e as int));
        apply_line_exec(&mut s, &mut floats, text, &chars, start, e);
        if e == n {
            break;
        }
        assert(skip(rest, (e - start + 1) as nat) =~= chars@.subrange(e + 1, n as int));
        start = e + 1;
    }
    (s, floats)
}

} // verus!
