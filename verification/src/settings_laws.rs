//! What reading the settings file gives back of the text the settings are
//! saved as.

use vstd::prelude::*;

use crate::scan::{decimal_value, has_prefix, parse_unsigned};
use crate::settings::{
    AccessView, AmplitecView, ClusterView, DeviceView, FloatSetting, RadioView, SessionState,
    SettingsView, TunerModel, TunerSettingsView, TunerSlotsView, Window,
};
use crate::settings_file::{antenna_position, apply_entry, non_empty, saved_drive, skip, FloatList};

verus! {

/// `w` is no prefix of `k` when they differ at position `i`.
proof fn lemma_not_prefix(k: Seq<char>, w: Seq<char>, i: int)
    requires
        0 <= i < w.len(),
        i < k.len() ==> k[i] != w[i],
    ensures
        !has_prefix(k, w),
{
    if has_prefix(k, w) {
        assert(k.subrange(0, w.len() as int)[i] == k[i]);
    }
}

/// Texts that differ at position `i` differ.
proof fn lemma_differ(k: Seq<char>, w: Seq<char>, i: int)
    requires
        0 <= i < k.len(),
        i < w.len(),
        k[i] != w[i],
    ensures
        k != w,
{
}

/// The radio-link keys of the opening block are read into their settings.
pub proof fn lemma_radio_keys(c: SettingsView, f: FloatList, v: Seq<char>)
    ensures
        apply_entry(c, f, "tci"@, v) == (SettingsView { radio: RadioView { tci_addr: non_empty(v), ..c.radio }, ..c }, f),
        apply_entry(c, f, "thetis_path"@, v) == (SettingsView { radio: RadioView { thetis_path: non_empty(v), ..c.radio }, ..c }, f),
        apply_entry(c, f, "yaesu_port"@, v) == (SettingsView { radio: RadioView { yaesu_port: non_empty(v), ..c.radio }, ..c }, f),
        apply_entry(c, f, "yaesu_enabled"@, v) == (SettingsView { radio: RadioView { yaesu_enabled: v != "false"@, ..c.radio }, ..c }, f),
        apply_entry(c, f, "yaesu_baud"@, v) == (match parse_unsigned(v, u32::MAX as int) {
            Some(n) => SettingsView { radio: RadioView { yaesu_baud: n as u32, ..c.radio }, ..c },
            None => c,
        }, f),
        apply_entry(c, f, "yaesu_audio"@, v) == (SettingsView { radio: RadioView { yaesu_audio_device: non_empty(v), ..c.radio }, ..c }, f),
{
    reveal(apply_entry);
    reveal_strlit("tci");
    reveal_strlit("input");
    reveal_strlit("input2");
    reveal_strlit("output");
    reveal_strlit("anan_interface");
    reveal_strlit("thetis_path");
    reveal_strlit("yaesu_port");
    reveal_strlit("yaesu_enabled");
    reveal_strlit("false");
    reveal_strlit("yaesu_baud");
    reveal_strlit("yaesu_audio");
    reveal_strlit("amplitec_port");
    reveal_strlit("amplitec_enabled");
    reveal_strlit("amplitec_label");
    reveal_strlit("amplitec_a");
    reveal_strlit("amplitec_b");
    reveal_strlit("amplitec_window");
    reveal_strlit("true");
    reveal_strlit("enabled");
    reveal_strlit("model");
    reveal_strlit("mcp_serial");
    reveal_strlit("amplitec_pos");
    reveal_strlit("threshold_v");
    reveal_strlit("hysteresis_v");
    reveal_strlit("tuner_port");
    reveal_strlit("tuner_enabled");
    reveal_strlit("tuner_assume_tuned");
    reveal_strlit("tuner1_");
    reveal_strlit("tuner2_");
    reveal_strlit("tuner_window");
    reveal_strlit("tuner_safe_drive");
    reveal_strlit("tuner_pos_x");
    reveal_strlit("tuner_pos_y");
    reveal_strlit("amplitec_pos_x");
    reveal_strlit("amplitec_pos_y");
    reveal_strlit("main_pos_x");
    reveal_strlit("main_pos_y");
    reveal_strlit("main_size_w");
    reveal_strlit("main_size_h");
    reveal_strlit("tuner_size_w");
    reveal_strlit("tuner_size_h");
    reveal_strlit("amplitec_size_w");
    reveal_strlit("amplitec_size_h");
    reveal_strlit("spe_size_w");
    reveal_strlit("spe_size_h");
    reveal_strlit("rf2k_size_w");
    reveal_strlit("rf2k_size_h");
    reveal_strlit("ultrabeam_size_w");
    reveal_strlit("ultrabeam_size_h");
    reveal_strlit("rotor_size_w");
    reveal_strlit("rotor_size_h");
    reveal_strlit("autostart");
    reveal_strlit("active_pa");
    reveal_strlit("rf2k_saved_drive");
    reveal_strlit("spe_saved_drive");
    reveal_strlit("ultrabeam_show_menu");
    reveal_strlit("mcp2221_section_expanded");
    reveal_strlit("dxcluster_server");
    reveal_strlit("dxcluster_callsign");
    reveal_strlit("dxcluster_enabled");
    reveal_strlit("dxcluster_expiry_min");
    reveal_strlit("password");
    reveal_strlit("totp_secret");
    reveal_strlit("totp_enabled");
    reveal_strlit("friendly_name");
    reveal_strlit("spe_port");
    reveal_strlit("spe_enabled");
    reveal_strlit("spe_window");
    reveal_strlit("spe_pos_x");
    reveal_strlit("spe_pos_y");
    reveal_strlit("rf2k_addr");
    reveal_strlit("rf2k_enabled");
    reveal_strlit("rf2k_window");
    reveal_strlit("rf2k_pos_x");
    reveal_strlit("rf2k_pos_y");
    reveal_strlit("ultrabeam_port");
    reveal_strlit("ultrabeam_enabled");
    reveal_strlit("ultrabeam_window");
    reveal_strlit("ultrabeam_pos_x");
    reveal_strlit("ultrabeam_pos_y");
    reveal_strlit("rotor_addr");
    reveal_strlit("rotor_enabled");
    reveal_strlit("rotor_window");
    reveal_strlit("rotor_pos_x");
    reveal_strlit("rotor_pos_y");
    lemma_not_prefix("thetis_path"@, "amplitec_a"@, 0);
    lemma_not_prefix("thetis_path"@, "amplitec_b"@, 0);
    lemma_not_prefix("thetis_path"@, "tuner1_"@, 1);
    lemma_not_prefix("thetis_path"@, "tuner2_"@, 1);
    lemma_differ("thetis_path"@, "yaesu_audio"@, 0);
    lemma_differ("thetis_path"@, "threshold_v"@, 2);
    lemma_differ("thetis_path"@, "tuner_pos_x"@, 1);
    lemma_differ("thetis_path"@, "tuner_pos_y"@, 1);
    lemma_differ("thetis_path"@, "main_size_w"@, 0);
    lemma_differ("thetis_path"@, "main_size_h"@, 0);
    lemma_differ("thetis_path"@, "rf2k_size_w"@, 0);
    lemma_differ("thetis_path"@, "rf2k_size_h"@, 0);
    lemma_differ("thetis_path"@, "totp_secret"@, 1);
    lemma_differ("thetis_path"@, "spe_enabled"@, 0);
    lemma_differ("thetis_path"@, "rf2k_window"@, 0);
    lemma_differ("thetis_path"@, "rotor_pos_x"@, 0);
    lemma_differ("thetis_path"@, "rotor_pos_y"@, 0);
    lemma_not_prefix("yaesu_port"@, "amplitec_a"@, 0);
    lemma_not_prefix("yaesu_port"@, "amplitec_b"@, 0);
    lemma_not_prefix("yaesu_port"@, "tuner1_"@, 0);
    lemma_not_prefix("yaesu_port"@, "tuner2_"@, 0);
    lemma_differ("yaesu_port"@, "yaesu_baud"@, 6);
    lemma_differ("yaesu_port"@, "amplitec_a"@, 0);
    lemma_differ("yaesu_port"@, "amplitec_b"@, 0);
    lemma_differ("yaesu_port"@, "mcp_serial"@, 0);
    lemma_differ("yaesu_port"@, "tuner_port"@, 0);
    lemma_differ("yaesu_port"@, "main_pos_x"@, 0);
    lemma_differ("yaesu_port"@, "main_pos_y"@, 0);
    lemma_differ("yaesu_port"@, "spe_size_w"@, 0);
    lemma_differ("yaesu_port"@, "spe_size_h"@, 0);
    lemma_differ("yaesu_port"@, "spe_window"@, 0);
    lemma_differ("yaesu_port"@, "rf2k_pos_x"@, 0);
    lemma_differ("yaesu_port"@, "rf2k_pos_y"@, 0);
    lemma_differ("yaesu_port"@, "rotor_addr"@, 0);
    lemma_not_prefix("yaesu_enabled"@, "amplitec_a"@, 0);
    lemma_not_prefix("yaesu_enabled"@, "amplitec_b"@, 0);
    lemma_not_prefix("yaesu_enabled"@, "tuner1_"@, 0);
    lemma_not_prefix("yaesu_enabled"@, "tuner2_"@, 0);
    lemma_differ("yaesu_enabled"@, "amplitec_port"@, 0);
    lemma_differ("yaesu_enabled"@, "tuner_enabled"@, 0);
    lemma_differ("yaesu_enabled"@, "friendly_name"@, 0);
    lemma_differ("yaesu_enabled"@, "rotor_enabled"@, 0);
    lemma_not_prefix("yaesu_baud"@, "amplitec_a"@, 0);
    lemma_not_prefix("yaesu_baud"@, "amplitec_b"@, 0);
    lemma_not_prefix("yaesu_baud"@, "tuner1_"@, 0);
    lemma_not_prefix("yaesu_baud"@, "tuner2_"@, 0);
    lemma_differ("yaesu_baud"@, "yaesu_port"@, 6);
    lemma_differ("yaesu_baud"@, "amplitec_a"@, 0);
    lemma_differ("yaesu_baud"@, "amplitec_b"@, 0);
    lemma_differ("yaesu_baud"@, "mcp_serial"@, 0);
    lemma_differ("yaesu_baud"@, "tuner_port"@, 0);
    lemma_differ("yaesu_baud"@, "main_pos_x"@, 0);
    lemma_differ("yaesu_baud"@, "main_pos_y"@, 0);
    lemma_differ("yaesu_baud"@, "spe_size_w"@, 0);
    lemma_differ("yaesu_baud"@, "spe_size_h"@, 0);
    lemma_differ("yaesu_baud"@, "spe_window"@, 0);
    lemma_differ("yaesu_baud"@, "rf2k_pos_x"@, 0);
    lemma_differ("yaesu_baud"@, "rf2k_pos_y"@, 0);
    lemma_differ("yaesu_baud"@, "rotor_addr"@, 0);
    lemma_not_prefix("yaesu_audio"@, "amplitec_a"@, 0);
    lemma_not_prefix("yaesu_audio"@, "amplitec_b"@, 0);
    lemma_not_prefix("yaesu_audio"@, "tuner1_"@, 0);
    lemma_not_prefix("yaesu_audio"@, "tuner2_"@, 0);
    lemma_differ("yaesu_audio"@, "thetis_path"@, 0);
    lemma_differ("yaesu_audio"@, "threshold_v"@, 0);
    lemma_differ("yaesu_audio"@, "tuner_pos_x"@, 0);
    lemma_differ("yaesu_audio"@, "tuner_pos_y"@, 0);
    lemma_differ("yaesu_audio"@, "main_size_w"@, 0);
    lemma_differ("yaesu_audio"@, "main_size_h"@, 0);
    lemma_differ("yaesu_audio"@, "rf2k_size_w"@, 0);
    lemma_differ("yaesu_audio"@, "rf2k_size_h"@, 0);
    lemma_differ("yaesu_audio"@, "totp_secret"@, 0);
    lemma_differ("yaesu_audio"@, "spe_enabled"@, 0);
    lemma_differ("yaesu_audio"@, "rf2k_window"@, 0);
    lemma_differ("yaesu_audio"@, "rotor_pos_x"@, 0);
    lemma_differ("yaesu_audio"@, "rotor_pos_y"@, 0);
}

/// The switch and tuner-window keys of the opening block are read into their settings.
pub proof fn lemma_switch_keys(c: SettingsView, f: FloatList, v: Seq<char>)
    ensures
        apply_entry(c, f, "amplitec_port"@, v) == (SettingsView { amplitec: AmplitecView { port: non_empty(v), ..c.amplitec }, ..c }, f),
        apply_entry(c, f, "amplitec_enabled"@, v) == (SettingsView { amplitec: AmplitecView { enabled: v != "false"@, ..c.amplitec }, ..c }, f),
        apply_entry(c, f, "amplitec_window"@, v) == (SettingsView { amplitec: AmplitecView { show_window: v == "true"@, ..c.amplitec }, ..c }, f),
        apply_entry(c, f, "tuner_window"@, v) == (SettingsView { tuners: TunerSlotsView { show_window: v == "true"@, ..c.tuners }, ..c }, f),
{
    reveal(apply_entry);
    reveal_strlit("tci");
    reveal_strlit("input");
    reveal_strlit("input2");
    reveal_strlit("output");
    reveal_strlit("anan_interface");
    reveal_strlit("thetis_path");
    reveal_strlit("yaesu_port");
    reveal_strlit("yaesu_enabled");
    reveal_strlit("false");
    reveal_strlit("yaesu_baud");
    reveal_strlit("yaesu_audio");
    reveal_strlit("amplitec_port");
    reveal_strlit("amplitec_enabled");
    reveal_strlit("amplitec_label");
    reveal_strlit("amplitec_a");
    reveal_strlit("amplitec_b");
    reveal_strlit("amplitec_window");
    reveal_strlit("true");
    reveal_strlit("enabled");
    reveal_strlit("model");
    reveal_strlit("mcp_serial");
    reveal_strlit("amplitec_pos");
    reveal_strlit("threshold_v");
    reveal_strlit("hysteresis_v");
    reveal_strlit("tuner_port");
    reveal_strlit("tuner_enabled");
    reveal_strlit("tuner_assume_tuned");
    reveal_strlit("tuner1_");
    reveal_strlit("tuner2_");
    reveal_strlit("tuner_window");
    reveal_strlit("tuner_safe_drive");
    reveal_strlit("tuner_pos_x");
    reveal_strlit("tuner_pos_y");
    reveal_strlit("amplitec_pos_x");
    reveal_strlit("amplitec_pos_y");
    reveal_strlit("main_pos_x");
    reveal_strlit("main_pos_y");
    reveal_strlit("main_size_w");
    reveal_strlit("main_size_h");
    reveal_strlit("tuner_size_w");
    reveal_strlit("tuner_size_h");
    reveal_strlit("amplitec_size_w");
    reveal_strlit("amplitec_size_h");
    reveal_strlit("spe_size_w");
    reveal_strlit("spe_size_h");
    reveal_strlit("rf2k_size_w");
    reveal_strlit("rf2k_size_h");
    reveal_strlit("ultrabeam_size_w");
    reveal_strlit("ultrabeam_size_h");
    reveal_strlit("rotor_size_w");
    reveal_strlit("rotor_size_h");
    reveal_strlit("autostart");
    reveal_strlit("active_pa");
    reveal_strlit("rf2k_saved_drive");
    reveal_strlit("spe_saved_drive");
    reveal_strlit("ultrabeam_show_menu");
    reveal_strlit("mcp2221_section_expanded");
    reveal_strlit("dxcluster_server");
    reveal_strlit("dxcluster_callsign");
    reveal_strlit("dxcluster_enabled");
    reveal_strlit("dxcluster_expiry_min");
    reveal_strlit("password");
    reveal_strlit("totp_secret");
    reveal_strlit("totp_enabled");
    reveal_strlit("friendly_name");
    reveal_strlit("spe_port");
    reveal_strlit("spe_enabled");
    reveal_strlit("spe_window");
    reveal_strlit("spe_pos_x");
    reveal_strlit("spe_pos_y");
    reveal_strlit("rf2k_addr");
    reveal_strlit("rf2k_enabled");
    reveal_strlit("rf2k_window");
    reveal_strlit("rf2k_pos_x");
    reveal_strlit("rf2k_pos_y");
    reveal_strlit("ultrabeam_port");
    reveal_strlit("ultrabeam_enabled");
    reveal_strlit("ultrabeam_window");
    reveal_strlit("ultrabeam_pos_x");
    reveal_strlit("ultrabeam_pos_y");
    reveal_strlit("rotor_addr");
    reveal_strlit("rotor_enabled");
    reveal_strlit("rotor_window");
    reveal_strlit("rotor_pos_x");
    reveal_strlit("rotor_pos_y");
    lemma_not_prefix("amplitec_port"@, "amplitec_a"@, 9);
    lemma_not_prefix("amplitec_port"@, "amplitec_b"@, 9);
    lemma_not_prefix("amplitec_port"@, "tuner1_"@, 0);
    lemma_not_prefix("amplitec_port"@, "tuner2_"@, 0);
    lemma_differ("amplitec_port"@, "yaesu_enabled"@, 0);
    lemma_differ("amplitec_port"@, "tuner_enabled"@, 0);
    lemma_differ("amplitec_port"@, "friendly_name"@, 0);
    lemma_differ("amplitec_port"@, "rotor_enabled"@, 0);
    lemma_not_prefix("amplitec_enabled"@, "amplitec_label"@, 9);
    lemma_not_prefix("amplitec_enabled"@, "amplitec_a"@, 9);
    lemma_not_prefix("amplitec_enabled"@, "amplitec_b"@, 9);
    lemma_not_prefix("amplitec_enabled"@, "tuner1_"@, 0);
    lemma_not_prefix("amplitec_enabled"@, "tuner2_"@, 0);
    lemma_differ("amplitec_enabled"@, "tuner_safe_drive"@, 0);
    lemma_differ("amplitec_enabled"@, "ultrabeam_size_w"@, 0);
    lemma_differ("amplitec_enabled"@, "ultrabeam_size_h"@, 0);
    lemma_differ("amplitec_enabled"@, "rf2k_saved_drive"@, 0);
    lemma_differ("amplitec_enabled"@, "dxcluster_server"@, 0);
    lemma_differ("amplitec_enabled"@, "ultrabeam_window"@, 0);
    lemma_not_prefix("amplitec_window"@, "amplitec_label"@, 9);
    lemma_not_prefix("amplitec_window"@, "amplitec_a"@, 9);
    lemma_not_prefix("amplitec_window"@, "amplitec_b"@, 9);
    lemma_not_prefix("amplitec_window"@, "tuner1_"@, 0);
    lemma_not_prefix("amplitec_window"@, "tuner2_"@, 0);
    lemma_differ("amplitec_window"@, "amplitec_size_w"@, 9);
    lemma_differ("amplitec_window"@, "amplitec_size_h"@, 9);
    lemma_differ("amplitec_window"@, "spe_saved_drive"@, 0);
    lemma_differ("amplitec_window"@, "ultrabeam_pos_x"@, 0);
    lemma_differ("amplitec_window"@, "ultrabeam_pos_y"@, 0);
    lemma_not_prefix("tuner_window"@, "amplitec_a"@, 0);
    lemma_not_prefix("tuner_window"@, "amplitec_b"@, 0);
    lemma_not_prefix("tuner_window"@, "tuner1_"@, 5);
    lemma_not_prefix("tuner_window"@, "tuner2_"@, 5);
    lemma_differ("tuner_window"@, "amplitec_pos"@, 0);
    lemma_differ("tuner_window"@, "hysteresis_v"@, 0);
    lemma_differ("tuner_window"@, "tuner_size_w"@, 6);
    lemma_differ("tuner_window"@, "tuner_size_h"@, 6);
    lemma_differ("tuner_window"@, "rotor_size_w"@, 0);
    lemma_differ("tuner_window"@, "rotor_size_h"@, 0);
    lemma_differ("tuner_window"@, "totp_enabled"@, 1);
    lemma_differ("tuner_window"@, "rf2k_enabled"@, 0);
    lemma_differ("tuner_window"@, "rotor_window"@, 0);
}

/// The SPE keys are read into its settings.
pub proof fn lemma_spe_keys(c: SettingsView, f: FloatList, v: Seq<char>)
    ensures
        apply_entry(c, f, "spe_port"@, v) == (SettingsView { spe: DeviceView { port: non_empty(v), ..c.spe }, ..c }, f),
        apply_entry(c, f, "spe_enabled"@, v) == (SettingsView { spe: DeviceView { enabled: v != "false"@, ..c.spe }, ..c }, f),
        apply_entry(c, f, "spe_window"@, v) == (SettingsView { spe: DeviceView { show_window: v == "true"@, ..c.spe }, ..c }, f),
{
    reveal(apply_entry);
    reveal_strlit("tci");
    reveal_strlit("input");
    reveal_strlit("input2");
    reveal_strlit("output");
    reveal_strlit("anan_interface");
    reveal_strlit("thetis_path");
    reveal_strlit("yaesu_port");
    reveal_strlit("yaesu_enabled");
    reveal_strlit("false");
    reveal_strlit("yaesu_baud");
    reveal_strlit("yaesu_audio");
    reveal_strlit("amplitec_port");
    reveal_strlit("amplitec_enabled");
    reveal_strlit("amplitec_label");
    reveal_strlit("amplitec_a");
    reveal_strlit("amplitec_b");
    reveal_strlit("amplitec_window");
    reveal_strlit("true");
    reveal_strlit("enabled");
    reveal_strlit("model");
    reveal_strlit("mcp_serial");
    reveal_strlit("amplitec_pos");
    reveal_strlit("threshold_v");
    reveal_strlit("hysteresis_v");
    reveal_strlit("tuner_port");
    reveal_strlit("tuner_enabled");
    reveal_strlit("tuner_assume_tuned");
    reveal_strlit("tuner1_");
    reveal_strlit("tuner2_");
    reveal_strlit("tuner_window");
    reveal_strlit("tuner_safe_drive");
    reveal_strlit("tuner_pos_x");
    reveal_strlit("tuner_pos_y");
    reveal_strlit("amplitec_pos_x");
    reveal_strlit("amplitec_pos_y");
    reveal_strlit("main_pos_x");
    reveal_strlit("main_pos_y");
    reveal_strlit("main_size_w");
    reveal_strlit("main_size_h");
    reveal_strlit("tuner_size_w");
    reveal_strlit("tuner_size_h");
    reveal_strlit("amplitec_size_w");
    reveal_strlit("amplitec_size_h");
    reveal_strlit("spe_size_w");
    reveal_strlit("spe_size_h");
    reveal_strlit("rf2k_size_w");
    reveal_strlit("rf2k_size_h");
    reveal_strlit("ultrabeam_size_w");
    reveal_strlit("ultrabeam_size_h");
    reveal_strlit("rotor_size_w");
    reveal_strlit("rotor_size_h");
    reveal_strlit("autostart");
    reveal_strlit("active_pa");
    reveal_strlit("rf2k_saved_drive");
    reveal_strlit("spe_saved_drive");
    reveal_strlit("ultrabeam_show_menu");
    reveal_strlit("mcp2221_section_expanded");
    reveal_strlit("dxcluster_server");
    reveal_strlit("dxcluster_callsign");
    reveal_strlit("dxcluster_enabled");
    reveal_strlit("dxcluster_expiry_min");
    reveal_strlit("password");
    reveal_strlit("totp_secret");
    reveal_strlit("totp_enabled");
    reveal_strlit("friendly_name");
    reveal_strlit("spe_port");
    reveal_strlit("spe_enabled");
    reveal_strlit("spe_window");
    reveal_strlit("spe_pos_x");
    reveal_strlit("spe_pos_y");
    reveal_strlit("rf2k_addr");
    reveal_strlit("rf2k_enabled");
    reveal_strlit("rf2k_window");
    reveal_strlit("rf2k_pos_x");
    reveal_strlit("rf2k_pos_y");
    reveal_strlit("ultrabeam_port");
    reveal_strlit("ultrabeam_enabled");
    reveal_strlit("ultrabeam_window");
    reveal_strlit("ultrabeam_pos_x");
    reveal_strlit("ultrabeam_pos_y");
    reveal_strlit("rotor_addr");
    reveal_strlit("rotor_enabled");
    reveal_strlit("rotor_window");
    reveal_strlit("rotor_pos_x");
    reveal_strlit("rotor_pos_y");
    lemma_not_prefix("spe_port"@, "tuner1_"@, 0);
    lemma_not_prefix("spe_port"@, "tuner2_"@, 0);
    lemma_differ("spe_port"@, "password"@, 0);
    lemma_not_prefix("spe_enabled"@, "amplitec_a"@, 0);
    lemma_not_prefix("spe_enabled"@, "amplitec_b"@, 0);
    lemma_not_prefix("spe_enabled"@, "tuner1_"@, 0);
    lemma_not_prefix("spe_enabled"@, "tuner2_"@, 0);
    lemma_differ("spe_enabled"@, "thetis_path"@, 0);
    lemma_differ("spe_enabled"@, "yaesu_audio"@, 0);
    lemma_differ("spe_enabled"@, "threshold_v"@, 0);
    lemma_differ("spe_enabled"@, "tuner_pos_x"@, 0);
    lemma_differ("spe_enabled"@, "tuner_pos_y"@, 0);
    lemma_differ("spe_enabled"@, "main_size_w"@, 0);
    lemma_differ("spe_enabled"@, "main_size_h"@, 0);
    lemma_differ("spe_enabled"@, "rf2k_size_w"@, 0);
    lemma_differ("spe_enabled"@, "rf2k_size_h"@, 0);
    lemma_differ("spe_enabled"@, "totp_secret"@, 0);
    lemma_differ("spe_enabled"@, "rf2k_window"@, 0);
    lemma_differ("spe_enabled"@, "rotor_pos_x"@, 0);
    lemma_differ("spe_enabled"@, "rotor_pos_y"@, 0);
    lemma_not_prefix("spe_window"@, "amplitec_a"@, 0);
    lemma_not_prefix("spe_window"@, "amplitec_b"@, 0);
    lemma_not_prefix("spe_window"@, "tuner1_"@, 0);
    lemma_not_prefix("spe_window"@, "tuner2_"@, 0);
    lemma_differ("spe_window"@, "yaesu_port"@, 0);
    lemma_differ("spe_window"@, "yaesu_baud"@, 0);
    lemma_differ("spe_window"@, "amplitec_a"@, 0);
    lemma_differ("spe_window"@, "amplitec_b"@, 0);
    lemma_differ("spe_window"@, "mcp_serial"@, 0);
    lemma_differ("spe_window"@, "tuner_port"@, 0);
    lemma_differ("spe_window"@, "main_pos_x"@, 0);
    lemma_differ("spe_window"@, "main_pos_y"@, 0);
    lemma_differ("spe_window"@, "spe_size_w"@, 4);
    lemma_differ("spe_window"@, "spe_size_h"@, 4);
    lemma_differ("spe_window"@, "rf2k_pos_x"@, 0);
    lemma_differ("spe_window"@, "rf2k_pos_y"@, 0);
    lemma_differ("spe_window"@, "rotor_addr"@, 0);
}

/// The RF2K keys are read into its settings.
pub proof fn lemma_rf2k_keys(c: SettingsView, f: FloatList, v: Seq<char>)
    ensures
        apply_entry(c, f, "rf2k_addr"@, v) == (SettingsView { rf2k: DeviceView { port: non_empty(v), ..c.rf2k }, ..c }, f),
        apply_entry(c, f, "rf2k_enabled"@, v) == (SettingsView { rf2k: DeviceView { enabled: v != "false"@, ..c.rf2k }, ..c }, f),
        apply_entry(c, f, "rf2k_window"@, v) == (SettingsView { rf2k: DeviceView { show_window: v == "true"@, ..c.rf2k }, ..c }, f),
{
    reveal(apply_entry);
    reveal_strlit("tci");
    reveal_strlit("input");
    reveal_strlit("input2");
    reveal_strlit("output");
    reveal_strlit("anan_interface");
    reveal_strlit("thetis_path");
    reveal_strlit("yaesu_port");
    reveal_strlit("yaesu_enabled");
    reveal_strlit("false");
    reveal_strlit("yaesu_baud");
    reveal_strlit("yaesu_audio");
    reveal_strlit("amplitec_port");
    reveal_strlit("amplitec_enabled");
    reveal_strlit("amplitec_label");
    reveal_strlit("amplitec_a");
    reveal_strlit("amplitec_b");
    reveal_strlit("amplitec_window");
    reveal_strlit("true");
    reveal_strlit("enabled");
    reveal_strlit("model");
    reveal_strlit("mcp_serial");
    reveal_strlit("amplitec_pos");
    reveal_strlit("threshold_v");
    reveal_strlit("hysteresis_v");
    reveal_strlit("tuner_port");
    reveal_strlit("tuner_enabled");
    reveal_strlit("tuner_assume_tuned");
    reveal_strlit("tuner1_");
    reveal_strlit("tuner2_");
    reveal_strlit("tuner_window");
    reveal_strlit("tuner_safe_drive");
    reveal_strlit("tuner_pos_x");
    reveal_strlit("tuner_pos_y");
    reveal_strlit("amplitec_pos_x");
    reveal_strlit("amplitec_pos_y");
    reveal_strlit("main_pos_x");
    reveal_strlit("main_pos_y");
    reveal_strlit("main_size_w");
    reveal_strlit("main_size_h");
    reveal_strlit("tuner_size_w");
    reveal_strlit("tuner_size_h");
    reveal_strlit("amplitec_size_w");
    reveal_strlit("amplitec_size_h");
    reveal_strlit("spe_size_w");
    reveal_strlit("spe_size_h");
    reveal_strlit("rf2k_size_w");
    reveal_strlit("rf2k_size_h");
    reveal_strlit("ultrabeam_size_w");
    reveal_strlit("ultrabeam_size_h");
    reveal_strlit("rotor_size_w");
    reveal_strlit("rotor_size_h");
    reveal_strlit("autostart");
    reveal_strlit("active_pa");
    reveal_strlit("rf2k_saved_drive");
    reveal_strlit("spe_saved_drive");
    reveal_strlit("ultrabeam_show_menu");
    reveal_strlit("mcp2221_section_expanded");
    reveal_strlit("dxcluster_server");
    reveal_strlit("dxcluster_callsign");
    reveal_strlit("dxcluster_enabled");
    reveal_strlit("dxcluster_expiry_min");
    reveal_strlit("password");
    reveal_strlit("totp_secret");
    reveal_strlit("totp_enabled");
    reveal_strlit("friendly_name");
    reveal_strlit("spe_port");
    reveal_strlit("spe_enabled");
    reveal_strlit("spe_window");
    reveal_strlit("spe_pos_x");
    reveal_strlit("spe_pos_y");
    reveal_strlit("rf2k_addr");
    reveal_strlit("rf2k_enabled");
    reveal_strlit("rf2k_window");
    reveal_strlit("rf2k_pos_x");
    reveal_strlit("rf2k_pos_y");
    reveal_strlit("ultrabeam_port");
    reveal_strlit("ultrabeam_enabled");
    reveal_strlit("ultrabeam_window");
    reveal_strlit("ultrabeam_pos_x");
    reveal_strlit("ultrabeam_pos_y");
    reveal_strlit("rotor_addr");
    reveal_strlit("rotor_enabled");
    reveal_strlit("rotor_window");
    reveal_strlit("rotor_pos_x");
    reveal_strlit("rotor_pos_y");
    lemma_not_prefix("rf2k_addr"@, "tuner1_"@, 0);
    lemma_not_prefix("rf2k_addr"@, "tuner2_"@, 0);
    lemma_differ("rf2k_addr"@, "autostart"@, 0);
    lemma_differ("rf2k_addr"@, "active_pa"@, 0);
    lemma_differ("rf2k_addr"@, "spe_pos_x"@, 0);
    lemma_differ("rf2k_addr"@, "spe_pos_y"@, 0);
    lemma_not_prefix("rf2k_enabled"@, "amplitec_a"@, 0);
    lemma_not_prefix("rf2k_enabled"@, "amplitec_b"@, 0);
    lemma_not_prefix("rf2k_enabled"@, "tuner1_"@, 0);
    lemma_not_prefix("rf2k_enabled"@, "tuner2_"@, 0);
    lemma_differ("rf2k_enabled"@, "amplitec_pos"@, 0);
    lemma_differ("rf2k_enabled"@, "hysteresis_v"@, 0);
    lemma_differ("rf2k_enabled"@, "tuner_window"@, 0);
    lemma_differ("rf2k_enabled"@, "tuner_size_w"@, 0);
    lemma_differ("rf2k_enabled"@, "tuner_size_h"@, 0);
    lemma_differ("rf2k_enabled"@, "rotor_size_w"@, 1);
    lemma_differ("rf2k_enabled"@, "rotor_size_h"@, 1);
    lemma_differ("rf2k_enabled"@, "totp_enabled"@, 0);
    lemma_differ("rf2k_enabled"@, "rotor_window"@, 1);
    lemma_not_prefix("rf2k_window"@, "amplitec_a"@, 0);
    lemma_not_prefix("rf2k_window"@, "amplitec_b"@, 0);
    lemma_not_prefix("rf2k_window"@, "tuner1_"@, 0);
    lemma_not_prefix("rf2k_window"@, "tuner2_"@, 0);
    lemma_differ("rf2k_window"@, "thetis_path"@, 0);
    lemma_differ("rf2k_window"@, "yaesu_audio"@, 0);
    lemma_differ("rf2k_window"@, "threshold_v"@, 0);
    lemma_differ("rf2k_window"@, "tuner_pos_x"@, 0);
    lemma_differ("rf2k_window"@, "tuner_pos_y"@, 0);
    lemma_differ("rf2k_window"@, "main_size_w"@, 0);
    lemma_differ("rf2k_window"@, "main_size_h"@, 0);
    lemma_differ("rf2k_window"@, "rf2k_size_w"@, 5);
    lemma_differ("rf2k_window"@, "rf2k_size_h"@, 5);
    lemma_differ("rf2k_window"@, "totp_secret"@, 0);
    lemma_differ("rf2k_window"@, "spe_enabled"@, 0);
    lemma_differ("rf2k_window"@, "rotor_pos_x"@, 1);
    lemma_differ("rf2k_window"@, "rotor_pos_y"@, 1);
}

/// The UltraBeam keys are read into its settings.
pub proof fn lemma_ultrabeam_keys(c: SettingsView, f: FloatList, v: Seq<char>)
    ensures
        apply_entry(c, f, "ultrabeam_port"@, v) == (SettingsView { ultrabeam: DeviceView { port: non_empty(v), ..c.ultrabeam }, ..c }, f),
        apply_entry(c, f, "ultrabeam_enabled"@, v) == (SettingsView { ultrabeam: DeviceView { enabled: v != "false"@, ..c.ultrabeam }, ..c }, f),
        apply_entry(c, f, "ultrabeam_window"@, v) == (SettingsView { ultrabeam: DeviceView { show_window: v == "true"@, ..c.ultrabeam }, ..c }, f),
{
    reveal(apply_entry);
    reveal_strlit("tci");
    reveal_strlit("input");
    reveal_strlit("input2");
    reveal_strlit("output");
    reveal_strlit("anan_interface");
    reveal_strlit("thetis_path");
    reveal_strlit("yaesu_port");
    reveal_strlit("yaesu_enabled");
    reveal_strlit("false");
    reveal_strlit("yaesu_baud");
    reveal_strlit("yaesu_audio");
    reveal_strlit("amplitec_port");
    reveal_strlit("amplitec_enabled");
    reveal_strlit("amplitec_label");
    reveal_strlit("amplitec_a");
    reveal_strlit("amplitec_b");
    reveal_strlit("amplitec_window");
    reveal_strlit("true");
    reveal_strlit("enabled");
    reveal_strlit("model");
    reveal_strlit("mcp_serial");
    reveal_strlit("amplitec_pos");
    reveal_strlit("threshold_v");
    reveal_strlit("hysteresis_v");
    reveal_strlit("tuner_port");
    reveal_strlit("tuner_enabled");
    reveal_strlit("tuner_assume_tuned");
    reveal_strlit("tuner1_");
    reveal_strlit("tuner2_");
    reveal_strlit("tuner_window");
    reveal_strlit("tuner_safe_drive");
    reveal_strlit("tuner_pos_x");
    reveal_strlit("tuner_pos_y");
    reveal_strlit("amplitec_pos_x");
    reveal_strlit("amplitec_pos_y");
    reveal_strlit("main_pos_x");
    reveal_strlit("main_pos_y");
    reveal_strlit("main_size_w");
    reveal_strlit("main_size_h");
    reveal_strlit("tuner_size_w");
    reveal_strlit("tuner_size_h");
    reveal_strlit("amplitec_size_w");
    reveal_strlit("amplitec_size_h");
    reveal_strlit("spe_size_w");
    reveal_strlit("spe_size_h");
    reveal_strlit("rf2k_size_w");
    reveal_strlit("rf2k_size_h");
    reveal_strlit("ultrabeam_size_w");
    reveal_strlit("ultrabeam_size_h");
    reveal_strlit("rotor_size_w");
    reveal_strlit("rotor_size_h");
    reveal_strlit("autostart");
    reveal_strlit("active_pa");
    reveal_strlit("rf2k_saved_drive");
    reveal_strlit("spe_saved_drive");
    reveal_strlit("ultrabeam_show_menu");
    reveal_strlit("mcp2221_section_expanded");
    reveal_strlit("dxcluster_server");
    reveal_strlit("dxcluster_callsign");
    reveal_strlit("dxcluster_enabled");
    reveal_strlit("dxcluster_expiry_min");
    reveal_strlit("password");
    reveal_strlit("totp_secret");
    reveal_strlit("totp_enabled");
    reveal_strlit("friendly_name");
    reveal_strlit("spe_port");
    reveal_strlit("spe_enabled");
    reveal_strlit("spe_window");
    reveal_strlit("spe_pos_x");
    reveal_strlit("spe_pos_y");
    reveal_strlit("rf2k_addr");
    reveal_strlit("rf2k_enabled");
    reveal_strlit("rf2k_window");
    reveal_strlit("rf2k_pos_x");
    reveal_strlit("rf2k_pos_y");
    reveal_strlit("ultrabeam_port");
    reveal_strlit("ultrabeam_enabled");
    reveal_strlit("ultrabeam_window");
    reveal_strlit("ultrabeam_pos_x");
    reveal_strlit("ultrabeam_pos_y");
    reveal_strlit("rotor_addr");
    reveal_strlit("rotor_enabled");
    reveal_strlit("rotor_window");
    reveal_strlit("rotor_pos_x");
    reveal_strlit("rotor_pos_y");
    lemma_not_prefix("ultrabeam_port"@, "amplitec_label"@, 0);
    lemma_not_prefix("ultrabeam_port"@, "amplitec_a"@, 0);
    lemma_not_prefix("ultrabeam_port"@, "amplitec_b"@, 0);
    lemma_not_prefix("ultrabeam_port"@, "tuner1_"@, 0);
    lemma_not_prefix("ultrabeam_port"@, "tuner2_"@, 0);
    lemma_differ("ultrabeam_port"@, "anan_interface"@, 0);
    lemma_differ("ultrabeam_port"@, "amplitec_label"@, 0);
    lemma_differ("ultrabeam_port"@, "amplitec_pos_x"@, 0);
    lemma_differ("ultrabeam_port"@, "amplitec_pos_y"@, 0);
    lemma_not_prefix("ultrabeam_enabled"@, "amplitec_label"@, 0);
    lemma_not_prefix("ultrabeam_enabled"@, "amplitec_a"@, 0);
    lemma_not_prefix("ultrabeam_enabled"@, "amplitec_b"@, 0);
    lemma_not_prefix("ultrabeam_enabled"@, "tuner1_"@, 0);
    lemma_not_prefix("ultrabeam_enabled"@, "tuner2_"@, 0);
    lemma_differ("ultrabeam_enabled"@, "dxcluster_enabled"@, 0);
    lemma_not_prefix("ultrabeam_window"@, "amplitec_label"@, 0);
    lemma_not_prefix("ultrabeam_window"@, "amplitec_a"@, 0);
    lemma_not_prefix("ultrabeam_window"@, "amplitec_b"@, 0);
    lemma_not_prefix("ultrabeam_window"@, "tuner1_"@, 0);
    lemma_not_prefix("ultrabeam_window"@, "tuner2_"@, 0);
    lemma_differ("ultrabeam_window"@, "amplitec_enabled"@, 0);
    lemma_differ("ultrabeam_window"@, "tuner_safe_drive"@, 0);
    lemma_differ("ultrabeam_window"@, "ultrabeam_size_w"@, 10);
    lemma_differ("ultrabeam_window"@, "ultrabeam_size_h"@, 10);
    lemma_differ("ultrabeam_window"@, "rf2k_saved_drive"@, 0);
    lemma_differ("ultrabeam_window"@, "dxcluster_server"@, 0);
}

/// The rotor keys are read into its settings.
pub proof fn lemma_rotor_keys(c: SettingsView, f: FloatList, v: Seq<char>)
    ensures
        apply_entry(c, f, "rotor_addr"@, v) == (SettingsView { rotor: DeviceView { port: non_empty(v), ..c.rotor }, ..c }, f),
        apply_entry(c, f, "rotor_enabled"@, v) == (SettingsView { rotor: DeviceView { enabled: v != "false"@, ..c.rotor }, ..c }, f),
        apply_entry(c, f, "rotor_window"@, v) == (SettingsView { rotor: DeviceView { show_window: v == "true"@, ..c.rotor }, ..c }, f),
{
    reveal(apply_entry);
    reveal_strlit("tci");
    reveal_strlit("input");
    reveal_strlit("input2");
    reveal_strlit("output");
    reveal_strlit("anan_interface");
    reveal_strlit("thetis_path");
    reveal_strlit("yaesu_port");
    reveal_strlit("yaesu_enabled");
    reveal_strlit("false");
    reveal_strlit("yaesu_baud");
    reveal_strlit("yaesu_audio");
    reveal_strlit("amplitec_port");
    reveal_strlit("amplitec_enabled");
    reveal_strlit("amplitec_label");
    reveal_strlit("amplitec_a");
    reveal_strlit("amplitec_b");
    reveal_strlit("amplitec_window");
    reveal_strlit("true");
    reveal_strlit("enabled");
    reveal_strlit("model");
    reveal_strlit("mcp_serial");
    reveal_strlit("amplitec_pos");
    reveal_strlit("threshold_v");
    reveal_strlit("hysteresis_v");
    reveal_strlit("tuner_port");
    reveal_strlit("tuner_enabled");
    reveal_strlit("tuner_assume_tuned");
    reveal_strlit("tuner1_");
    reveal_strlit("tuner2_");
    reveal_strlit("tuner_window");
    reveal_strlit("tuner_safe_drive");
    reveal_strlit("tuner_pos_x");
    reveal_strlit("tuner_pos_y");
    reveal_strlit("amplitec_pos_x");
    reveal_strlit("amplitec_pos_y");
    reveal_strlit("main_pos_x");
    reveal_strlit("main_pos_y");
    reveal_strlit("main_size_w");
    reveal_strlit("main_size_h");
    reveal_strlit("tuner_size_w");
    reveal_strlit("tuner_size_h");
    reveal_strlit("amplitec_size_w");
    reveal_strlit("amplitec_size_h");
    reveal_strlit("spe_size_w");
    reveal_strlit("spe_size_h");
    reveal_strlit("rf2k_size_w");
    reveal_strlit("rf2k_size_h");
    reveal_strlit("ultrabeam_size_w");
    reveal_strlit("ultrabeam_size_h");
    reveal_strlit("rotor_size_w");
    reveal_strlit("rotor_size_h");
    reveal_strlit("autostart");
    reveal_strlit("active_pa");
    reveal_strlit("rf2k_saved_drive");
    reveal_strlit("spe_saved_drive");
    reveal_strlit("ultrabeam_show_menu");
    reveal_strlit("mcp2221_section_expanded");
    reveal_strlit("dxcluster_server");
    reveal_strlit("dxcluster_callsign");
    reveal_strlit("dxcluster_enabled");
    reveal_strlit("dxcluster_expiry_min");
    reveal_strlit("password");
    reveal_strlit("totp_secret");
    reveal_strlit("totp_enabled");
    reveal_strlit("friendly_name");
    reveal_strlit("spe_port");
    reveal_strlit("spe_enabled");
    reveal_strlit("spe_window");
    reveal_strlit("spe_pos_x");
    reveal_strlit("spe_pos_y");
    reveal_strlit("rf2k_addr");
    reveal_strlit("rf2k_enabled");
    reveal_strlit("rf2k_window");
    reveal_strlit("rf2k_pos_x");
    reveal_strlit("rf2k_pos_y");
    reveal_strlit("ultrabeam_port");
    reveal_strlit("ultrabeam_enabled");
    reveal_strlit("ultrabeam_window");
    reveal_strlit("ultrabeam_pos_x");
    reveal_strlit("ultrabeam_pos_y");
    reveal_strlit("rotor_addr");
    reveal_strlit("rotor_enabled");
    reveal_strlit("rotor_window");
    reveal_strlit("rotor_pos_x");
    reveal_strlit("rotor_pos_y");
    lemma_not_prefix("rotor_addr"@, "amplitec_a"@, 0);
    lemma_not_prefix("rotor_addr"@, "amplitec_b"@, 0);
    lemma_not_prefix("rotor_addr"@, "tuner1_"@, 0);
    lemma_not_prefix("rotor_addr"@, "tuner2_"@, 0);
    lemma_differ("rotor_addr"@, "yaesu_port"@, 0);
    lemma_differ("rotor_addr"@, "yaesu_baud"@, 0);
    lemma_differ("rotor_addr"@, "amplitec_a"@, 0);
    lemma_differ("rotor_addr"@, "amplitec_b"@, 0);
    lemma_differ("rotor_addr"@, "mcp_serial"@, 0);
    lemma_differ("rotor_addr"@, "tuner_port"@, 0);
    lemma_differ("rotor_addr"@, "main_pos_x"@, 0);
    lemma_differ("rotor_addr"@, "main_pos_y"@, 0);
    lemma_differ("rotor_addr"@, "spe_size_w"@, 0);
    lemma_differ("rotor_addr"@, "spe_size_h"@, 0);
    lemma_differ("rotor_addr"@, "spe_window"@, 0);
    lemma_differ("rotor_addr"@, "rf2k_pos_x"@, 1);
    lemma_differ("rotor_addr"@, "rf2k_pos_y"@, 1);
    lemma_not_prefix("rotor_enabled"@, "amplitec_a"@, 0);
    lemma_not_prefix("rotor_enabled"@, "amplitec_b"@, 0);
    lemma_not_prefix("rotor_enabled"@, "tuner1_"@, 0);
    lemma_not_prefix("rotor_enabled"@, "tuner2_"@, 0);
    lemma_differ("rotor_enabled"@, "yaesu_enabled"@, 0);
    lemma_differ("rotor_enabled"@, "amplitec_port"@, 0);
    lemma_differ("rotor_enabled"@, "tuner_enabled"@, 0);
    lemma_differ("rotor_enabled"@, "friendly_name"@, 0);
    lemma_not_prefix("rotor_window"@, "amplitec_a"@, 0);
    lemma_not_prefix("rotor_window"@, "amplitec_b"@, 0);
    lemma_not_prefix("rotor_window"@, "tuner1_"@, 0);
    lemma_not_prefix("rotor_window"@, "tuner2_"@, 0);
    lemma_differ("rotor_window"@, "amplitec_pos"@, 0);
    lemma_differ("rotor_window"@, "hysteresis_v"@, 0);
    lemma_differ("rotor_window"@, "tuner_window"@, 0);
    lemma_differ("rotor_window"@, "tuner_size_w"@, 0);
    lemma_differ("rotor_window"@, "tuner_size_h"@, 0);
    lemma_differ("rotor_window"@, "rotor_size_w"@, 6);
    lemma_differ("rotor_window"@, "rotor_size_h"@, 6);
    lemma_differ("rotor_window"@, "totp_enabled"@, 0);
    lemma_differ("rotor_window"@, "rf2k_enabled"@, 1);
}

/// The window-position keys are read as floating-point settings.
pub proof fn lemma_pos_keys(c: SettingsView, f: FloatList, v: Seq<char>)
    ensures
        apply_entry(c, f, "tuner_pos_x"@, v) == (c, f.push((FloatSetting::WindowPos { window: Window::Tuner, index: 0 }, v))),
        apply_entry(c, f, "tuner_pos_y"@, v) == (c, f.push((FloatSetting::WindowPos { window: Window::Tuner, index: 1 }, v))),
        apply_entry(c, f, "amplitec_pos_x"@, v) == (c, f.push((FloatSetting::WindowPos { window: Window::Amplitec, index: 0 }, v))),
        apply_entry(c, f, "amplitec_pos_y"@, v) == (c, f.push((FloatSetting::WindowPos { window: Window::Amplitec, index: 1 }, v))),
        apply_entry(c, f, "spe_pos_x"@, v) == (c, f.push((FloatSetting::WindowPos { window: Window::Spe, index: 0 }, v))),
        apply_entry(c, f, "spe_pos_y"@, v) == (c, f.push((FloatSetting::WindowPos { window: Window::Spe, index: 1 }, v))),
        apply_entry(c, f, "rf2k_pos_x"@, v) == (c, f.push((FloatSetting::WindowPos { window: Window::Rf2k, index: 0 }, v))),
        apply_entry(c, f, "rf2k_pos_y"@, v) == (c, f.push((FloatSetting::WindowPos { window: Window::Rf2k, index: 1 }, v))),
        apply_entry(c, f, "ultrabeam_pos_x"@, v) == (c, f.push((FloatSetting::WindowPos { window: Window::Ultrabeam, index: 0 }, v))),
        apply_entry(c, f, "ultrabeam_pos_y"@, v) == (c, f.push((FloatSetting::WindowPos { window: Window::Ultrabeam, index: 1 }, v))),
        apply_entry(c, f, "rotor_pos_x"@, v) == (c, f.push((FloatSetting::WindowPos { window: Window::Rotor, index: 0 }, v))),
        apply_entry(c, f, "rotor_pos_y"@, v) == (c, f.push((FloatSetting::WindowPos { window: Window::Rotor, index: 1 }, v))),
        apply_entry(c, f, "main_pos_x"@, v) == (c, f.push((FloatSetting::WindowPos { window: Window::Main, index: 0 }, v))),
        apply_entry(c, f, "main_pos_y"@, v) == (c, f.push((FloatSetting::WindowPos { window: Window::Main, index: 1 }, v))),
{
    reveal(apply_entry);
    reveal_strlit("tci");
    reveal_strlit("input");
    reveal_strlit("input2");
    reveal_strlit("output");
    reveal_strlit("anan_interface");
    reveal_strlit("thetis_path");
    reveal_strlit("yaesu_port");
    reveal_strlit("yaesu_enabled");
    reveal_strlit("false");
    reveal_strlit("yaesu_baud");
    reveal_strlit("yaesu_audio");
    reveal_strlit("amplitec_port");
    reveal_strlit("amplitec_enabled");
    reveal_strlit("amplitec_label");
    reveal_strlit("amplitec_a");
    reveal_strlit("amplitec_b");
    reveal_strlit("amplitec_window");
    reveal_strlit("true");
    reveal_strlit("enabled");
    reveal_strlit("model");
    reveal_strlit("mcp_serial");
    reveal_strlit("amplitec_pos");
    reveal_strlit("threshold_v");
    reveal_strlit("hysteresis_v");
    reveal_strlit("tuner_port");
    reveal_strlit("tuner_enabled");
    reveal_strlit("tuner_assume_tuned");
    reveal_strlit("tuner1_");
    reveal_strlit("tuner2_");
    reveal_strlit("tuner_window");
    reveal_strlit("tuner_safe_drive");
    reveal_strlit("tuner_pos_x");
    reveal_strlit("tuner_pos_y");
    reveal_strlit("amplitec_pos_x");
    reveal_strlit("amplitec_pos_y");
    reveal_strlit("main_pos_x");
    reveal_strlit("main_pos_y");
    reveal_strlit("main_size_w");
    reveal_strlit("main_size_h");
    reveal_strlit("tuner_size_w");
    reveal_strlit("tuner_size_h");
    reveal_strlit("amplitec_size_w");
    reveal_strlit("amplitec_size_h");
    reveal_strlit("spe_size_w");
    reveal_strlit("spe_size_h");
    reveal_strlit("rf2k_size_w");
    reveal_strlit("rf2k_size_h");
    reveal_strlit("ultrabeam_size_w");
    reveal_strlit("ultrabeam_size_h");
    reveal_strlit("rotor_size_w");
    reveal_strlit("rotor_size_h");
    reveal_strlit("autostart");
    reveal_strlit("active_pa");
    reveal_strlit("rf2k_saved_drive");
    reveal_strlit("spe_saved_drive");
    reveal_strlit("ultrabeam_show_menu");
    reveal_strlit("mcp2221_section_expanded");
    reveal_strlit("dxcluster_server");
    reveal_strlit("dxcluster_callsign");
    reveal_strlit("dxcluster_enabled");
    reveal_strlit("dxcluster_expiry_min");
    reveal_strlit("password");
    reveal_strlit("totp_secret");
    reveal_strlit("totp_enabled");
    reveal_strlit("friendly_name");
    reveal_strlit("spe_port");
    reveal_strlit("spe_enabled");
    reveal_strlit("spe_window");
    reveal_strlit("spe_pos_x");
    reveal_strlit("spe_pos_y");
    reveal_strlit("rf2k_addr");
    reveal_strlit("rf2k_enabled");
    reveal_strlit("rf2k_window");
    reveal_strlit("rf2k_pos_x");
    reveal_strlit("rf2k_pos_y");
    reveal_strlit("ultrabeam_port");
    reveal_strlit("ultrabeam_enabled");
    reveal_strlit("ultrabeam_window");
    reveal_strlit("ultrabeam_pos_x");
    reveal_strlit("ultrabeam_pos_y");
    reveal_strlit("rotor_addr");
    reveal_strlit("rotor_enabled");
    reveal_strlit("rotor_window");
    reveal_strlit("rotor_pos_x");
    reveal_strlit("rotor_pos_y");
    lemma_not_prefix("tuner_pos_x"@, "amplitec_a"@, 0);
    lemma_not_prefix("tuner_pos_x"@, "amplitec_b"@, 0);
    lemma_not_prefix("tuner_pos_x"@, "tuner1_"@, 5);
    lemma_not_prefix("tuner_pos_x"@, "tuner2_"@, 5);
    lemma_differ("tuner_pos_x"@, "thetis_path"@, 1);
    lemma_differ("tuner_pos_x"@, "yaesu_audio"@, 0);
    lemma_differ("tuner_pos_x"@, "threshold_v"@, 1);
    lemma_differ("tuner_pos_x"@, "tuner_pos_y"@, 10);
    lemma_differ("tuner_pos_x"@, "main_size_w"@, 0);
    lemma_differ("tuner_pos_x"@, "main_size_h"@, 0);
    lemma_differ("tuner_pos_x"@, "rf2k_size_w"@, 0);
    lemma_differ("tuner_pos_x"@, "rf2k_size_h"@, 0);
    lemma_differ("tuner_pos_x"@, "totp_secret"@, 1);
    lemma_differ("tuner_pos_x"@, "spe_enabled"@, 0);
    lemma_differ("tuner_pos_x"@, "rf2k_window"@, 0);
    lemma_differ("tuner_pos_x"@, "rotor_pos_x"@, 0);
    lemma_differ("tuner_pos_x"@, "rotor_pos_y"@, 0);
    lemma_not_prefix("tuner_pos_y"@, "amplitec_a"@, 0);
    lemma_not_prefix("tuner_pos_y"@, "amplitec_b"@, 0);
    lemma_not_prefix("tuner_pos_y"@, "tuner1_"@, 5);
    lemma_not_prefix("tuner_pos_y"@, "tuner2_"@, 5);
    lemma_differ("tuner_pos_y"@, "thetis_path"@, 1);
    lemma_differ("tuner_pos_y"@, "yaesu_audio"@, 0);
    lemma_differ("tuner_pos_y"@, "threshold_v"@, 1);
    lemma_differ("tuner_pos_y"@, "tuner_pos_x"@, 10);
    lemma_differ("tuner_pos_y"@, "main_size_w"@, 0);
    lemma_differ("tuner_pos_y"@, "main_size_h"@, 0);
    lemma_differ("tuner_pos_y"@, "rf2k_size_w"@, 0);
    lemma_differ("tuner_pos_y"@, "rf2k_size_h"@, 0);
    lemma_differ("tuner_pos_y"@, "totp_secret"@, 1);
    lemma_differ("tuner_pos_y"@, "spe_enabled"@, 0);
    lemma_differ("tuner_pos_y"@, "rf2k_window"@, 0);
    lemma_differ("tuner_pos_y"@, "rotor_pos_x"@, 0);
    lemma_differ("tuner_pos_y"@, "rotor_pos_y"@, 0);
    lemma_not_prefix("amplitec_pos_x"@, "amplitec_label"@, 9);
    lemma_not_prefix("amplitec_pos_x"@, "amplitec_a"@, 9);
    lemma_not_prefix("amplitec_pos_x"@, "amplitec_b"@, 9);
    lemma_not_prefix("amplitec_pos_x"@, "tuner1_"@, 0);
    lemma_not_prefix("amplitec_pos_x"@, "tuner2_"@, 0);
    lemma_differ("amplitec_pos_x"@, "anan_interface"@, 1);
    lemma_differ("amplitec_pos_x"@, "amplitec_label"@, 9);
    lemma_differ("amplitec_pos_x"@, "amplitec_pos_y"@, 13);
    lemma_differ("amplitec_pos_x"@, "ultrabeam_port"@, 0);
    lemma_not_prefix("amplitec_pos_y"@, "amplitec_label"@, 9);
    lemma_not_prefix("amplitec_pos_y"@, "amplitec_a"@, 9);
    lemma_not_prefix("amplitec_pos_y"@, "amplitec_b"@, 9);
    lemma_not_prefix("amplitec_pos_y"@, "tuner1_"@, 0);
    lemma_not_prefix("amplitec_pos_y"@, "tuner2_"@, 0);
    lemma_differ("amplitec_pos_y"@, "anan_interface"@, 1);
    lemma_differ("amplitec_pos_y"@, "amplitec_label"@, 9);
    lemma_differ("amplitec_pos_y"@, "amplitec_pos_x"@, 13);
    lemma_differ("amplitec_pos_y"@, "ultrabeam_port"@, 0);
    lemma_not_prefix("spe_pos_x"@, "tuner1_"@, 0);
    lemma_not_prefix("spe_pos_x"@, "tuner2_"@, 0);
    lemma_differ("spe_pos_x"@, "autostart"@, 0);
    lemma_differ("spe_pos_x"@, "active_pa"@, 0);
    lemma_differ("spe_pos_x"@, "spe_pos_y"@, 8);
    lemma_differ("spe_pos_x"@, "rf2k_addr"@, 0);
    lemma_not_prefix("spe_pos_y"@, "tuner1_"@, 0);
    lemma_not_prefix("spe_pos_y"@, "tuner2_"@, 0);
    lemma_differ("spe_pos_y"@, "autostart"@, 0);
    lemma_differ("spe_pos_y"@, "active_pa"@, 0);
    lemma_differ("spe_pos_y"@, "spe_pos_x"@, 8);
    lemma_differ("spe_pos_y"@, "rf2k_addr"@, 0);
    lemma_not_prefix("rf2k_pos_x"@, "amplitec_a"@, 0);
    lemma_not_prefix("rf2k_pos_x"@, "amplitec_b"@, 0);
    lemma_not_prefix("rf2k_pos_x"@, "tuner1_"@, 0);
    lemma_not_prefix("rf2k_pos_x"@, "tuner2_"@, 0);
    lemma_differ("rf2k_pos_x"@, "yaesu_port"@, 0);
    lemma_differ("rf2k_pos_x"@, "yaesu_baud"@, 0);
    lemma_differ("rf2k_pos_x"@, "amplitec_a"@, 0);
    lemma_differ("rf2k_pos_x"@, "amplitec_b"@, 0);
    lemma_differ("rf2k_pos_x"@, "mcp_serial"@, 0);
    lemma_differ("rf2k_pos_x"@, "tuner_port"@, 0);
    lemma_differ("rf2k_pos_x"@, "main_pos_x"@, 0);
    lemma_differ("rf2k_pos_x"@, "main_pos_y"@, 0);
    lemma_differ("rf2k_pos_x"@, "spe_size_w"@, 0);
    lemma_differ("rf2k_pos_x"@, "spe_size_h"@, 0);
    lemma_differ("rf2k_pos_x"@, "spe_window"@, 0);
    lemma_differ("rf2k_pos_x"@, "rf2k_pos_y"@, 9);
    lemma_differ("rf2k_pos_x"@, "rotor_addr"@, 1);
    lemma_not_prefix("rf2k_pos_y"@, "amplitec_a"@, 0);
    lemma_not_prefix("rf2k_pos_y"@, "amplitec_b"@, 0);
    lemma_not_prefix("rf2k_pos_y"@, "tuner1_"@, 0);
    lemma_not_prefix("rf2k_pos_y"@, "tuner2_"@, 0);
    lemma_differ("rf2k_pos_y"@, "yaesu_port"@, 0);
    lemma_differ("rf2k_pos_y"@, "yaesu_baud"@, 0);
    lemma_differ("rf2k_pos_y"@, "amplitec_a"@, 0);
    lemma_differ("rf2k_pos_y"@, "amplitec_b"@, 0);
    lemma_differ("rf2k_pos_y"@, "mcp_serial"@, 0);
    lemma_differ("rf2k_pos_y"@, "tuner_port"@, 0);
    lemma_differ("rf2k_pos_y"@, "main_pos_x"@, 0);
    lemma_differ("rf2k_pos_y"@, "main_pos_y"@, 0);
    lemma_differ("rf2k_pos_y"@, "spe_size_w"@, 0);
    lemma_differ("rf2k_pos_y"@, "spe_size_h"@, 0);
    lemma_differ("rf2k_pos_y"@, "spe_window"@, 0);
    lemma_differ("rf2k_pos_y"@, "rf2k_pos_x"@, 9);
    lemma_differ("rf2k_pos_y"@, "rotor_addr"@, 1);
    lemma_not_prefix("ultrabeam_pos_x"@, "amplitec_label"@, 0);
    lemma_not_prefix("ultrabeam_pos_x"@, "amplitec_a"@, 0);
    lemma_not_prefix("ultrabeam_pos_x"@, "amplitec_b"@, 0);
    lemma_not_prefix("ultrabeam_pos_x"@, "tuner1_"@, 0);
    lemma_not_prefix("ultrabeam_pos_x"@, "tuner2_"@, 0);
    lemma_differ("ultrabeam_pos_x"@, "amplitec_window"@, 0);
    lemma_differ("ultrabeam_pos_x"@, "amplitec_size_w"@, 0);
    lemma_differ("ultrabeam_pos_x"@, "amplitec_size_h"@, 0);
    lemma_differ("ultrabeam_pos_x"@, "spe_saved_drive"@, 0);
    lemma_differ("ultrabeam_pos_x"@, "ultrabeam_pos_y"@, 14);
    lemma_not_prefix("ultrabeam_pos_y"@, "amplitec_label"@, 0);
    lemma_not_prefix("ultrabeam_pos_y"@, "amplitec_a"@, 0);
    lemma_not_prefix("ultrabeam_pos_y"@, "amplitec_b"@, 0);
    lemma_not_prefix("ultrabeam_pos_y"@, "tuner1_"@, 0);
    lemma_not_prefix("ultrabeam_pos_y"@, "tuner2_"@, 0);
    lemma_differ("ultrabeam_pos_y"@, "amplitec_window"@, 0);
    lemma_differ("ultrabeam_pos_y"@, "amplitec_size_w"@, 0);
    lemma_differ("ultrabeam_pos_y"@, "amplitec_size_h"@, 0);
    lemma_differ("ultrabeam_pos_y"@, "spe_saved_drive"@, 0);
    lemma_differ("ultrabeam_pos_y"@, "ultrabeam_pos_x"@, 14);
    lemma_not_prefix("rotor_pos_x"@, "amplitec_a"@, 0);
    lemma_not_prefix("rotor_pos_x"@, "amplitec_b"@, 0);
    lemma_not_prefix("rotor_pos_x"@, "tuner1_"@, 0);
    lemma_not_prefix("rotor_pos_x"@, "tuner2_"@, 0);
    lemma_differ("rotor_pos_x"@, "thetis_path"@, 0);
    lemma_differ("rotor_pos_x"@, "yaesu_audio"@, 0);
    lemma_differ("rotor_pos_x"@, "threshold_v"@, 0);
    lemma_differ("rotor_pos_x"@, "tuner_pos_x"@, 0);
    lemma_differ("rotor_pos_x"@, "tuner_pos_y"@, 0);
    lemma_differ("rotor_pos_x"@, "main_size_w"@, 0);
    lemma_differ("rotor_pos_x"@, "main_size_h"@, 0);
    lemma_differ("rotor_pos_x"@, "rf2k_size_w"@, 1);
    lemma_differ("rotor_pos_x"@, "rf2k_size_h"@, 1);
    lemma_differ("rotor_pos_x"@, "totp_secret"@, 0);
    lemma_differ("rotor_pos_x"@, "spe_enabled"@, 0);
    lemma_differ("rotor_pos_x"@, "rf2k_window"@, 1);
    lemma_differ("rotor_pos_x"@, "rotor_pos_y"@, 10);
    lemma_not_prefix("rotor_pos_y"@, "amplitec_a"@, 0);
    lemma_not_prefix("rotor_pos_y"@, "amplitec_b"@, 0);
    lemma_not_prefix("rotor_pos_y"@, "tuner1_"@, 0);
    lemma_not_prefix("rotor_pos_y"@, "tuner2_"@, 0);
    lemma_differ("rotor_pos_y"@, "thetis_path"@, 0);
    lemma_differ("rotor_pos_y"@, "yaesu_audio"@, 0);
    lemma_differ("rotor_pos_y"@, "threshold_v"@, 0);
    lemma_differ("rotor_pos_y"@, "tuner_pos_x"@, 0);
    lemma_differ("rotor_pos_y"@, "tuner_pos_y"@, 0);
    lemma_differ("rotor_pos_y"@, "main_size_w"@, 0);
    lemma_differ("rotor_pos_y"@, "main_size_h"@, 0);
    lemma_differ("rotor_pos_y"@, "rf2k_size_w"@, 1);
    lemma_differ("rotor_pos_y"@, "rf2k_size_h"@, 1);
    lemma_differ("rotor_pos_y"@, "totp_secret"@, 0);
    lemma_differ("rotor_pos_y"@, "spe_enabled"@, 0);
    lemma_differ("rotor_pos_y"@, "rf2k_window"@, 1);
    lemma_differ("rotor_pos_y"@, "rotor_pos_x"@, 10);
    lemma_not_prefix("main_pos_x"@, "amplitec_a"@, 0);
    lemma_not_prefix("main_pos_x"@, "amplitec_b"@, 0);
    lemma_not_prefix("main_pos_x"@, "tuner1_"@, 0);
    lemma_not_prefix("main_pos_x"@, "tuner2_"@, 0);
    lemma_differ("main_pos_x"@, "yaesu_port"@, 0);
    lemma_differ("main_pos_x"@, "yaesu_baud"@, 0);
    lemma_differ("main_pos_x"@, "amplitec_a"@, 0);
    lemma_differ("main_pos_x"@, "amplitec_b"@, 0);
    lemma_differ("main_pos_x"@, "mcp_serial"@, 1);
    lemma_differ("main_pos_x"@, "tuner_port"@, 0);
    lemma_differ("main_pos_x"@, "main_pos_y"@, 9);
    lemma_differ("main_pos_x"@, "spe_size_w"@, 0);
    lemma_differ("main_pos_x"@, "spe_size_h"@, 0);
    lemma_differ("main_pos_x"@, "spe_window"@, 0);
    lemma_differ("main_pos_x"@, "rf2k_pos_x"@, 0);
    lemma_differ("main_pos_x"@, "rf2k_pos_y"@, 0);
    lemma_differ("main_pos_x"@, "rotor_addr"@, 0);
    lemma_not_prefix("main_pos_y"@, "amplitec_a"@, 0);
    lemma_not_prefix("main_pos_y"@, "amplitec_b"@, 0);
    lemma_not_prefix("main_pos_y"@, "tuner1_"@, 0);
    lemma_not_prefix("main_pos_y"@, "tuner2_"@, 0);
    lemma_differ("main_pos_y"@, "yaesu_port"@, 0);
    lemma_differ("main_pos_y"@, "yaesu_baud"@, 0);
    lemma_differ("main_pos_y"@, "amplitec_a"@, 0);
    lemma_differ("main_pos_y"@, "amplitec_b"@, 0);
    lemma_differ("main_pos_y"@, "mcp_serial"@, 1);
    lemma_differ("main_pos_y"@, "tuner_port"@, 0);
    lemma_differ("main_pos_y"@, "main_pos_x"@, 9);
    lemma_differ("main_pos_y"@, "spe_size_w"@, 0);
    lemma_differ("main_pos_y"@, "spe_size_h"@, 0);
    lemma_differ("main_pos_y"@, "spe_window"@, 0);
    lemma_differ("main_pos_y"@, "rf2k_pos_x"@, 0);
    lemma_differ("main_pos_y"@, "rf2k_pos_y"@, 0);
    lemma_differ("main_pos_y"@, "rotor_addr"@, 0);
}

/// The window-size keys are read as floating-point settings.
pub proof fn lemma_size_keys(c: SettingsView, f: FloatList, v: Seq<char>)
    ensures
        apply_entry(c, f, "main_size_w"@, v) == (c, f.push((FloatSetting::WindowSize { window: Window::Main, index: 0 }, v))),
        apply_entry(c, f, "main_size_h"@, v) == (c, f.push((FloatSetting::WindowSize { window: Window::Main, index: 1 }, v))),
        apply_entry(c, f, "tuner_size_w"@, v) == (c, f.push((FloatSetting::WindowSize { window: Window::Tuner, index: 0 }, v))),
        apply_entry(c, f, "tuner_size_h"@, v) == (c, f.push((FloatSetting::WindowSize { window: Window::Tuner, index: 1 }, v))),
        apply_entry(c, f, "amplitec_size_w"@, v) == (c, f.push((FloatSetting::WindowSize { window: Window::Amplitec, index: 0 }, v))),
        apply_entry(c, f, "amplitec_size_h"@, v) == (c, f.push((FloatSetting::WindowSize { window: Window::Amplitec, index: 1 }, v))),
        apply_entry(c, f, "spe_size_w"@, v) == (c, f.push((FloatSetting::WindowSize { window: Window::Spe, index: 0 }, v))),
        apply_entry(c, f, "spe_size_h"@, v) == (c, f.push((FloatSetting::WindowSize { window: Window::Spe, index: 1 }, v))),
        apply_entry(c, f, "rf2k_size_w"@, v) == (c, f.push((FloatSetting::WindowSize { window: Window::Rf2k, index: 0 }, v))),
        apply_entry(c, f, "rf2k_size_h"@, v) == (c, f.push((FloatSetting::WindowSize { window: Window::Rf2k, index: 1 }, v))),
        apply_entry(c, f, "ultrabeam_size_w"@, v) == (c, f.push((FloatSetting::WindowSize { window: Window::Ultrabeam, index: 0 }, v))),
        apply_entry(c, f, "ultrabeam_size_h"@, v) == (c, f.push((FloatSetting::WindowSize { window: Window::Ultrabeam, index: 1 }, v))),
        apply_entry(c, f, "rotor_size_w"@, v) == (c, f.push((FloatSetting::WindowSize { window: Window::Rotor, index: 0 }, v))),
        apply_entry(c, f, "rotor_size_h"@, v) == (c, f.push((FloatSetting::WindowSize { window: Window::Rotor, index: 1 }, v))),
{
    reveal(apply_entry);
    reveal_strlit("tci");
    reveal_strlit("input");
    reveal_strlit("input2");
    reveal_strlit("output");
    reveal_strlit("anan_interface");
    reveal_strlit("thetis_path");
    reveal_strlit("yaesu_port");
    reveal_strlit("yaesu_enabled");
    reveal_strlit("false");
    reveal_strlit("yaesu_baud");
    reveal_strlit("yaesu_audio");
    reveal_strlit("amplitec_port");
    reveal_strlit("amplitec_enabled");
    reveal_strlit("amplitec_label");
    reveal_strlit("amplitec_a");
    reveal_strlit("amplitec_b");
    reveal_strlit("amplitec_window");
    reveal_strlit("true");
    reveal_strlit("enabled");
    reveal_strlit("model");
    reveal_strlit("mcp_serial");
    reveal_strlit("amplitec_pos");
    reveal_strlit("threshold_v");
    reveal_strlit("hysteresis_v");
    reveal_strlit("tuner_port");
    reveal_strlit("tuner_enabled");
    reveal_strlit("tuner_assume_tuned");
    reveal_strlit("tuner1_");
    reveal_strlit("tuner2_");
    reveal_strlit("tuner_window");
    reveal_strlit("tuner_safe_drive");
    reveal_strlit("tuner_pos_x");
    reveal_strlit("tuner_pos_y");
    reveal_strlit("amplitec_pos_x");
    reveal_strlit("amplitec_pos_y");
    reveal_strlit("main_pos_x");
    reveal_strlit("main_pos_y");
    reveal_strlit("main_size_w");
    reveal_strlit("main_size_h");
    reveal_strlit("tuner_size_w");
    reveal_strlit("tuner_size_h");
    reveal_strlit("amplitec_size_w");
    reveal_strlit("amplitec_size_h");
    reveal_strlit("spe_size_w");
    reveal_strlit("spe_size_h");
    reveal_strlit("rf2k_size_w");
    reveal_strlit("rf2k_size_h");
    reveal_strlit("ultrabeam_size_w");
    reveal_strlit("ultrabeam_size_h");
    reveal_strlit("rotor_size_w");
    reveal_strlit("rotor_size_h");
    reveal_strlit("autostart");
    reveal_strlit("active_pa");
    reveal_strlit("rf2k_saved_drive");
    reveal_strlit("spe_saved_drive");
    reveal_strlit("ultrabeam_show_menu");
    reveal_strlit("mcp2221_section_expanded");
    reveal_strlit("dxcluster_server");
    reveal_strlit("dxcluster_callsign");
    reveal_strlit("dxcluster_enabled");
    reveal_strlit("dxcluster_expiry_min");
    reveal_strlit("password");
    reveal_strlit("totp_secret");
    reveal_strlit("totp_enabled");
    reveal_strlit("friendly_name");
    reveal_strlit("spe_port");
    reveal_strlit("spe_enabled");
    reveal_strlit("spe_window");
    reveal_strlit("spe_pos_x");
    reveal_strlit("spe_pos_y");
    reveal_strlit("rf2k_addr");
    reveal_strlit("rf2k_enabled");
    reveal_strlit("rf2k_window");
    reveal_strlit("rf2k_pos_x");
    reveal_strlit("rf2k_pos_y");
    reveal_strlit("ultrabeam_port");
    reveal_strlit("ultrabeam_enabled");
    reveal_strlit("ultrabeam_window");
    reveal_strlit("ultrabeam_pos_x");
    reveal_strlit("ultrabeam_pos_y");
    reveal_strlit("rotor_addr");
    reveal_strlit("rotor_enabled");
    reveal_strlit("rotor_window");
    reveal_strlit("rotor_pos_x");
    reveal_strlit("rotor_pos_y");
    lemma_not_prefix("main_size_w"@, "amplitec_a"@, 0);
    lemma_not_prefix("main_size_w"@, "amplitec_b"@, 0);
    lemma_not_prefix("main_size_w"@, "tuner1_"@, 0);
    lemma_not_prefix("main_size_w"@, "tuner2_"@, 0);
    lemma_differ("main_size_w"@, "thetis_path"@, 0);
    lemma_differ("main_size_w"@, "yaesu_audio"@, 0);
    lemma_differ("main_size_w"@, "threshold_v"@, 0);
    lemma_differ("main_size_w"@, "tuner_pos_x"@, 0);
    lemma_differ("main_size_w"@, "tuner_pos_y"@, 0);
    lemma_differ("main_size_w"@, "main_size_h"@, 10);
    lemma_differ("main_size_w"@, "rf2k_size_w"@, 0);
    lemma_differ("main_size_w"@, "rf2k_size_h"@, 0);
    lemma_differ("main_size_w"@, "totp_secret"@, 0);
    lemma_differ("main_size_w"@, "spe_enabled"@, 0);
    lemma_differ("main_size_w"@, "rf2k_window"@, 0);
    lemma_differ("main_size_w"@, "rotor_pos_x"@, 0);
    lemma_differ("main_size_w"@, "rotor_pos_y"@, 0);
    lemma_not_prefix("main_size_h"@, "amplitec_a"@, 0);
    lemma_not_prefix("main_size_h"@, "amplitec_b"@, 0);
    lemma_not_prefix("main_size_h"@, "tuner1_"@, 0);
    lemma_not_prefix("main_size_h"@, "tuner2_"@, 0);
    lemma_differ("main_size_h"@, "thetis_path"@, 0);
    lemma_differ("main_size_h"@, "yaesu_audio"@, 0);
    lemma_differ("main_size_h"@, "threshold_v"@, 0);
    lemma_differ("main_size_h"@, "tuner_pos_x"@, 0);
    lemma_differ("main_size_h"@, "tuner_pos_y"@, 0);
    lemma_differ("main_size_h"@, "main_size_w"@, 10);
    lemma_differ("main_size_h"@, "rf2k_size_w"@, 0);
    lemma_differ("main_size_h"@, "rf2k_size_h"@, 0);
    lemma_differ("main_size_h"@, "totp_secret"@, 0);
    lemma_differ("main_size_h"@, "spe_enabled"@, 0);
    lemma_differ("main_size_h"@, "rf2k_window"@, 0);
    lemma_differ("main_size_h"@, "rotor_pos_x"@, 0);
    lemma_differ("main_size_h"@, "rotor_pos_y"@, 0);
    lemma_not_prefix("tuner_size_w"@, "amplitec_a"@, 0);
    lemma_not_prefix("tuner_size_w"@, "amplitec_b"@, 0);
    lemma_not_prefix("tuner_size_w"@, "tuner1_"@, 5);
    lemma_not_prefix("tuner_size_w"@, "tuner2_"@, 5);
    lemma_differ("tuner_size_w"@, "amplitec_pos"@, 0);
    lemma_differ("tuner_size_w"@, "hysteresis_v"@, 0);
    lemma_differ("tuner_size_w"@, "tuner_window"@, 6);
    lemma_differ("tuner_size_w"@, "tuner_size_h"@, 11);
    lemma_differ("tuner_size_w"@, "rotor_size_w"@, 0);
    lemma_differ("tuner_size_w"@, "rotor_size_h"@, 0);
    lemma_differ("tuner_size_w"@, "totp_enabled"@, 1);
    lemma_differ("tuner_size_w"@, "rf2k_enabled"@, 0);
    lemma_differ("tuner_size_w"@, "rotor_window"@, 0);
    lemma_not_prefix("tuner_size_h"@, "amplitec_a"@, 0);
    lemma_not_prefix("tuner_size_h"@, "amplitec_b"@, 0);
    lemma_not_prefix("tuner_size_h"@, "tuner1_"@, 5);
    lemma_not_prefix("tuner_size_h"@, "tuner2_"@, 5);
    lemma_differ("tuner_size_h"@, "amplitec_pos"@, 0);
    lemma_differ("tuner_size_h"@, "hysteresis_v"@, 0);
    lemma_differ("tuner_size_h"@, "tuner_window"@, 6);
    lemma_differ("tuner_size_h"@, "tuner_size_w"@, 11);
    lemma_differ("tuner_size_h"@, "rotor_size_w"@, 0);
    lemma_differ("tuner_size_h"@, "rotor_size_h"@, 0);
    lemma_differ("tuner_size_h"@, "totp_enabled"@, 1);
    lemma_differ("tuner_size_h"@, "rf2k_enabled"@, 0);
    lemma_differ("tuner_size_h"@, "rotor_window"@, 0);
    lemma_not_prefix("amplitec_size_w"@, "amplitec_label"@, 9);
    lemma_not_prefix("amplitec_size_w"@, "amplitec_a"@, 9);
    lemma_not_prefix("amplitec_size_w"@, "amplitec_b"@, 9);
    lemma_not_prefix("amplitec_size_w"@, "tuner1_"@, 0);
    lemma_not_prefix("amplitec_size_w"@, "tuner2_"@, 0);
    lemma_differ("amplitec_size_w"@, "amplitec_window"@, 9);
    lemma_differ("amplitec_size_w"@, "amplitec_size_h"@, 14);
    lemma_differ("amplitec_size_w"@, "spe_saved_drive"@, 0);
    lemma_differ("amplitec_size_w"@, "ultrabeam_pos_x"@, 0);
    lemma_differ("amplitec_size_w"@, "ultrabeam_pos_y"@, 0);
    lemma_not_prefix("amplitec_size_h"@, "amplitec_label"@, 9);
    lemma_not_prefix("amplitec_size_h"@, "amplitec_a"@, 9);
    lemma_not_prefix("amplitec_size_h"@, "amplitec_b"@, 9);
    lemma_not_prefix("amplitec_size_h"@, "tuner1_"@, 0);
    lemma_not_prefix("amplitec_size_h"@, "tuner2_"@, 0);
    lemma_differ("amplitec_size_h"@, "amplitec_window"@, 9);
    lemma_differ("amplitec_size_h"@, "amplitec_size_w"@, 14);
    lemma_differ("amplitec_size_h"@, "spe_saved_drive"@, 0);
    lemma_differ("amplitec_size_h"@, "ultrabeam_pos_x"@, 0);
    lemma_differ("amplitec_size_h"@, "ultrabeam_pos_y"@, 0);
    lemma_not_prefix("spe_size_w"@, "amplitec_a"@, 0);
    lemma_not_prefix("spe_size_w"@, "amplitec_b"@, 0);
    lemma_not_prefix("spe_size_w"@, "tuner1_"@, 0);
    lemma_not_prefix("spe_size_w"@, "tuner2_"@, 0);
    lemma_differ("spe_size_w"@, "yaesu_port"@, 0);
    lemma_differ("spe_size_w"@, "yaesu_baud"@, 0);
    lemma_differ("spe_size_w"@, "amplitec_a"@, 0);
    lemma_differ("spe_size_w"@, "amplitec_b"@, 0);
    lemma_differ("spe_size_w"@, "mcp_serial"@, 0);
    lemma_differ("spe_size_w"@, "tuner_port"@, 0);
    lemma_differ("spe_size_w"@, "main_pos_x"@, 0);
    lemma_differ("spe_size_w"@, "main_pos_y"@, 0);
    lemma_differ("spe_size_w"@, "spe_size_h"@, 9);
    lemma_differ("spe_size_w"@, "spe_window"@, 4);
    lemma_differ("spe_size_w"@, "rf2k_pos_x"@, 0);
    lemma_differ("spe_size_w"@, "rf2k_pos_y"@, 0);
    lemma_differ("spe_size_w"@, "rotor_addr"@, 0);
    lemma_not_prefix("spe_size_h"@, "amplitec_a"@, 0);
    lemma_not_prefix("spe_size_h"@, "amplitec_b"@, 0);
    lemma_not_prefix("spe_size_h"@, "tuner1_"@, 0);
    lemma_not_prefix("spe_size_h"@, "tuner2_"@, 0);
    lemma_differ("spe_size_h"@, "yaesu_port"@, 0);
    lemma_differ("spe_size_h"@, "yaesu_baud"@, 0);
    lemma_differ("spe_size_h"@, "amplitec_a"@, 0);
    lemma_differ("spe_size_h"@, "amplitec_b"@, 0);
    lemma_differ("spe_size_h"@, "mcp_serial"@, 0);
    lemma_differ("spe_size_h"@, "tuner_port"@, 0);
    lemma_differ("spe_size_h"@, "main_pos_x"@, 0);
    lemma_differ("spe_size_h"@, "main_pos_y"@, 0);
    lemma_differ("spe_size_h"@, "spe_size_w"@, 9);
    lemma_differ("spe_size_h"@, "spe_window"@, 4);
    lemma_differ("spe_size_h"@, "rf2k_pos_x"@, 0);
    lemma_differ("spe_size_h"@, "rf2k_pos_y"@, 0);
    lemma_differ("spe_size_h"@, "rotor_addr"@, 0);
    lemma_not_prefix("rf2k_size_w"@, "amplitec_a"@, 0);
    lemma_not_prefix("rf2k_size_w"@, "amplitec_b"@, 0);
    lemma_not_prefix("rf2k_size_w"@, "tuner1_"@, 0);
    lemma_not_prefix("rf2k_size_w"@, "tuner2_"@, 0);
    lemma_differ("rf2k_size_w"@, "thetis_path"@, 0);
    lemma_differ("rf2k_size_w"@, "yaesu_audio"@, 0);
    lemma_differ("rf2k_size_w"@, "threshold_v"@, 0);
    lemma_differ("rf2k_size_w"@, "tuner_pos_x"@, 0);
    lemma_differ("rf2k_size_w"@, "tuner_pos_y"@, 0);
    lemma_differ("rf2k_size_w"@, "main_size_w"@, 0);
    lemma_differ("rf2k_size_w"@, "main_size_h"@, 0);
    lemma_differ("rf2k_size_w"@, "rf2k_size_h"@, 10);
    lemma_differ("rf2k_size_w"@, "totp_secret"@, 0);
    lemma_differ("rf2k_size_w"@, "spe_enabled"@, 0);
    lemma_differ("rf2k_size_w"@, "rf2k_window"@, 5);
    lemma_differ("rf2k_size_w"@, "rotor_pos_x"@, 1);
    lemma_differ("rf2k_size_w"@, "rotor_pos_y"@, 1);
    lemma_not_prefix("rf2k_size_h"@, "amplitec_a"@, 0);
    lemma_not_prefix("rf2k_size_h"@, "amplitec_b"@, 0);
    lemma_not_prefix("rf2k_size_h"@, "tuner1_"@, 0);
    lemma_not_prefix("rf2k_size_h"@, "tuner2_"@, 0);
    lemma_differ("rf2k_size_h"@, "thetis_path"@, 0);
    lemma_differ("rf2k_size_h"@, "yaesu_audio"@, 0);
    lemma_differ("rf2k_size_h"@, "threshold_v"@, 0);
    lemma_differ("rf2k_size_h"@, "tuner_pos_x"@, 0);
    lemma_differ("rf2k_size_h"@, "tuner_pos_y"@, 0);
    lemma_differ("rf2k_size_h"@, "main_size_w"@, 0);
    lemma_differ("rf2k_size_h"@, "main_size_h"@, 0);
    lemma_differ("rf2k_size_h"@, "rf2k_size_w"@, 10);
    lemma_differ("rf2k_size_h"@, "totp_secret"@, 0);
    lemma_differ("rf2k_size_h"@, "spe_enabled"@, 0);
    lemma_differ("rf2k_size_h"@, "rf2k_window"@, 5);
    lemma_differ("rf2k_size_h"@, "rotor_pos_x"@, 1);
    lemma_differ("rf2k_size_h"@, "rotor_pos_y"@, 1);
    lemma_not_prefix("ultrabeam_size_w"@, "amplitec_label"@, 0);
    lemma_not_prefix("ultrabeam_size_w"@, "amplitec_a"@, 0);
    lemma_not_prefix("ultrabeam_size_w"@, "amplitec_b"@, 0);
    lemma_not_prefix("ultrabeam_size_w"@, "tuner1_"@, 0);
    lemma_not_prefix("ultrabeam_size_w"@, "tuner2_"@, 0);
    lemma_differ("ultrabeam_size_w"@, "amplitec_enabled"@, 0);
    lemma_differ("ultrabeam_size_w"@, "tuner_safe_drive"@, 0);
    lemma_differ("ultrabeam_size_w"@, "ultrabeam_size_h"@, 15);
    lemma_differ("ultrabeam_size_w"@, "rf2k_saved_drive"@, 0);
    lemma_differ("ultrabeam_size_w"@, "dxcluster_server"@, 0);
    lemma_differ("ultrabeam_size_w"@, "ultrabeam_window"@, 10);
    lemma_not_prefix("ultrabeam_size_h"@, "amplitec_label"@, 0);
    lemma_not_prefix("ultrabeam_size_h"@, "amplitec_a"@, 0);
    lemma_not_prefix("ultrabeam_size_h"@, "amplitec_b"@, 0);
    lemma_not_prefix("ultrabeam_size_h"@, "tuner1_"@, 0);
    lemma_not_prefix("ultrabeam_size_h"@, "tuner2_"@, 0);
    lemma_differ("ultrabeam_size_h"@, "amplitec_enabled"@, 0);
    lemma_differ("ultrabeam_size_h"@, "tuner_safe_drive"@, 0);
    lemma_differ("ultrabeam_size_h"@, "ultrabeam_size_w"@, 15);
    lemma_differ("ultrabeam_size_h"@, "rf2k_saved_drive"@, 0);
    lemma_differ("ultrabeam_size_h"@, "dxcluster_server"@, 0);
    lemma_differ("ultrabeam_size_h"@, "ultrabeam_window"@, 10);
    lemma_not_prefix("rotor_size_w"@, "amplitec_a"@, 0);
    lemma_not_prefix("rotor_size_w"@, "amplitec_b"@, 0);
    lemma_not_prefix("rotor_size_w"@, "tuner1_"@, 0);
    lemma_not_prefix("rotor_size_w"@, "tuner2_"@, 0);
    lemma_differ("rotor_size_w"@, "amplitec_pos"@, 0);
    lemma_differ("rotor_size_w"@, "hysteresis_v"@, 0);
    lemma_differ("rotor_size_w"@, "tuner_window"@, 0);
    lemma_differ("rotor_size_w"@, "tuner_size_w"@, 0);
    lemma_differ("rotor_size_w"@, "tuner_size_h"@, 0);
    lemma_differ("rotor_size_w"@, "rotor_size_h"@, 11);
    lemma_differ("rotor_size_w"@, "totp_enabled"@, 0);
    lemma_differ("rotor_size_w"@, "rf2k_enabled"@, 1);
    lemma_differ("rotor_size_w"@, "rotor_window"@, 6);
    lemma_not_prefix("rotor_size_h"@, "amplitec_a"@, 0);
    lemma_not_prefix("rotor_size_h"@, "amplitec_b"@, 0);
    lemma_not_prefix("rotor_size_h"@, "tuner1_"@, 0);
    lemma_not_prefix("rotor_size_h"@, "tuner2_"@, 0);
    lemma_differ("rotor_size_h"@, "amplitec_pos"@, 0);
    lemma_differ("rotor_size_h"@, "hysteresis_v"@, 0);
    lemma_differ("rotor_size_h"@, "tuner_window"@, 0);
    lemma_differ("rotor_size_h"@, "tuner_size_w"@, 0);
    lemma_differ("rotor_size_h"@, "tuner_size_h"@, 0);
    lemma_differ("rotor_size_h"@, "rotor_size_w"@, 11);
    lemma_differ("rotor_size_h"@, "totp_enabled"@, 0);
    lemma_differ("rotor_size_h"@, "rf2k_enabled"@, 1);
    lemma_differ("rotor_size_h"@, "rotor_window"@, 6);
}

/// The session keys are read into the session state.
pub proof fn lemma_session_keys(c: SettingsView, f: FloatList, v: Seq<char>)
    ensures
        apply_entry(c, f, "autostart"@, v) == (SettingsView { session: SessionState { autostart: v == "true"@, ..c.session }, ..c }, f),
        apply_entry(c, f, "active_pa"@, v) == (SettingsView {
            session: SessionState {
                active_pa: match parse_unsigned(v, 255) {
                    Some(n) => n as u8,
                    None => 0,
                },
                ..c.session
            },
            ..c
        }, f),
        apply_entry(c, f, "rf2k_saved_drive"@, v) == (SettingsView { session: SessionState { rf2k_saved_drive: saved_drive(v), ..c.session }, ..c }, f),
        apply_entry(c, f, "spe_saved_drive"@, v) == (SettingsView { session: SessionState { spe_saved_drive: saved_drive(v), ..c.session }, ..c }, f),
        apply_entry(c, f, "ultrabeam_show_menu"@, v) == (SettingsView { session: SessionState { ultrabeam_show_menu: v == "true"@, ..c.session }, ..c }, f),
        apply_entry(c, f, "mcp2221_section_expanded"@, v) == (SettingsView { session: SessionState { mcp2221_section_expanded: v != "false"@, ..c.session }, ..c }, f),
{
    reveal(apply_entry);
    reveal_strlit("tci");
    reveal_strlit("input");
    reveal_strlit("input2");
    reveal_strlit("output");
    reveal_strlit("anan_interface");
    reveal_strlit("thetis_path");
    reveal_strlit("yaesu_port");
    reveal_strlit("yaesu_enabled");
    reveal_strlit("false");
    reveal_strlit("yaesu_baud");
    reveal_strlit("yaesu_audio");
    reveal_strlit("amplitec_port");
    reveal_strlit("amplitec_enabled");
    reveal_strlit("amplitec_label");
    reveal_strlit("amplitec_a");
    reveal_strlit("amplitec_b");
    reveal_strlit("amplitec_window");
    reveal_strlit("true");
    reveal_strlit("enabled");
    reveal_strlit("model");
    reveal_strlit("mcp_serial");
    reveal_strlit("amplitec_pos");
    reveal_strlit("threshold_v");
    reveal_strlit("hysteresis_v");
    reveal_strlit("tuner_port");
    reveal_strlit("tuner_enabled");
    reveal_strlit("tuner_assume_tuned");
    reveal_strlit("tuner1_");
    reveal_strlit("tuner2_");
    reveal_strlit("tuner_window");
    reveal_strlit("tuner_safe_drive");
    reveal_strlit("tuner_pos_x");
    reveal_strlit("tuner_pos_y");
    reveal_strlit("amplitec_pos_x");
    reveal_strlit("amplitec_pos_y");
    reveal_strlit("main_pos_x");
    reveal_strlit("main_pos_y");
    reveal_strlit("main_size_w");
    reveal_strlit("main_size_h");
    reveal_strlit("tuner_size_w");
    reveal_strlit("tuner_size_h");
    reveal_strlit("amplitec_size_w");
    reveal_strlit("amplitec_size_h");
    reveal_strlit("spe_size_w");
    reveal_strlit("spe_size_h");
    reveal_strlit("rf2k_size_w");
    reveal_strlit("rf2k_size_h");
    reveal_strlit("ultrabeam_size_w");
    reveal_strlit("ultrabeam_size_h");
    reveal_strlit("rotor_size_w");
    reveal_strlit("rotor_size_h");
    reveal_strlit("autostart");
    reveal_strlit("active_pa");
    reveal_strlit("rf2k_saved_drive");
    reveal_strlit("spe_saved_drive");
    reveal_strlit("ultrabeam_show_menu");
    reveal_strlit("mcp2221_section_expanded");
    reveal_strlit("dxcluster_server");
    reveal_strlit("dxcluster_callsign");
    reveal_strlit("dxcluster_enabled");
    reveal_strlit("dxcluster_expiry_min");
    reveal_strlit("password");
    reveal_strlit("totp_secret");
    reveal_strlit("totp_enabled");
    reveal_strlit("friendly_name");
    reveal_strlit("spe_port");
    reveal_strlit("spe_enabled");
    reveal_strlit("spe_window");
    reveal_strlit("spe_pos_x");
    reveal_strlit("spe_pos_y");
    reveal_strlit("rf2k_addr");
    reveal_strlit("rf2k_enabled");
    reveal_strlit("rf2k_window");
    reveal_strlit("rf2k_pos_x");
    reveal_strlit("rf2k_pos_y");
    reveal_strlit("ultrabeam_port");
    reveal_strlit("ultrabeam_enabled");
    reveal_strlit("ultrabeam_window");
    reveal_strlit("ultrabeam_pos_x");
    reveal_strlit("ultrabeam_pos_y");
    reveal_strlit("rotor_addr");
    reveal_strlit("rotor_enabled");
    reveal_strlit("rotor_window");
    reveal_strlit("rotor_pos_x");
    reveal_strlit("rotor_pos_y");
    lemma_not_prefix("autostart"@, "tuner1_"@, 0);
    lemma_not_prefix("autostart"@, "tuner2_"@, 0);
    lemma_differ("autostart"@, "active_pa"@, 1);
    lemma_differ("autostart"@, "spe_pos_x"@, 0);
    lemma_differ("autostart"@, "spe_pos_y"@, 0);
    lemma_differ("autostart"@, "rf2k_addr"@, 0);
    lemma_not_prefix("active_pa"@, "tuner1_"@, 0);
    lemma_not_prefix("active_pa"@, "tuner2_"@, 0);
    lemma_differ("active_pa"@, "autostart"@, 1);
    lemma_differ("active_pa"@, "spe_pos_x"@, 0);
    lemma_differ("active_pa"@, "spe_pos_y"@, 0);
    lemma_differ("active_pa"@, "rf2k_addr"@, 0);
    lemma_not_prefix("rf2k_saved_drive"@, "amplitec_label"@, 0);
    lemma_not_prefix("rf2k_saved_drive"@, "amplitec_a"@, 0);
    lemma_not_prefix("rf2k_saved_drive"@, "amplitec_b"@, 0);
    lemma_not_prefix("rf2k_saved_drive"@, "tuner1_"@, 0);
    lemma_not_prefix("rf2k_saved_drive"@, "tuner2_"@, 0);
    lemma_differ("rf2k_saved_drive"@, "amplitec_enabled"@, 0);
    lemma_differ("rf2k_saved_drive"@, "tuner_safe_drive"@, 0);
    lemma_differ("rf2k_saved_drive"@, "ultrabeam_size_w"@, 0);
    lemma_differ("rf2k_saved_drive"@, "ultrabeam_size_h"@, 0);
    lemma_differ("rf2k_saved_drive"@, "dxcluster_server"@, 0);
    lemma_differ("rf2k_saved_drive"@, "ultrabeam_window"@, 0);
    lemma_not_prefix("spe_saved_drive"@, "amplitec_label"@, 0);
    lemma_not_prefix("spe_saved_drive"@, "amplitec_a"@, 0);
    lemma_not_prefix("spe_saved_drive"@, "amplitec_b"@, 0);
    lemma_not_prefix("spe_saved_drive"@, "tuner1_"@, 0);
    lemma_not_prefix("spe_saved_drive"@, "tuner2_"@, 0);
    lemma_differ("spe_saved_drive"@, "amplitec_window"@, 0);
    lemma_differ("spe_saved_drive"@, "amplitec_size_w"@, 0);
    lemma_differ("spe_saved_drive"@, "amplitec_size_h"@, 0);
    lemma_differ("spe_saved_drive"@, "ultrabeam_pos_x"@, 0);
    lemma_differ("spe_saved_drive"@, "ultrabeam_pos_y"@, 0);
    lemma_not_prefix("ultrabeam_show_menu"@, "amplitec_label"@, 0);
    lemma_not_prefix("ultrabeam_show_menu"@, "amplitec_a"@, 0);
    lemma_not_prefix("ultrabeam_show_menu"@, "amplitec_b"@, 0);
    lemma_not_prefix("ultrabeam_show_menu"@, "tuner1_"@, 0);
    lemma_not_prefix("ultrabeam_show_menu"@, "tuner2_"@, 0);
    lemma_not_prefix("mcp2221_section_expanded"@, "amplitec_label"@, 0);
    lemma_not_prefix("mcp2221_section_expanded"@, "amplitec_a"@, 0);
    lemma_not_prefix("mcp2221_section_expanded"@, "amplitec_b"@, 0);
    lemma_not_prefix("mcp2221_section_expanded"@, "tuner1_"@, 0);
    lemma_not_prefix("mcp2221_section_expanded"@, "tuner2_"@, 0);
}

/// The DX-cluster keys are read into its settings.
pub proof fn lemma_cluster_keys(c: SettingsView, f: FloatList, v: Seq<char>)
    ensures
        apply_entry(c, f, "dxcluster_server"@, v) == (if v.len() > 0 { SettingsView { cluster: ClusterView { server: v, ..c.cluster }, ..c } } else { c }, f),
        apply_entry(c, f, "dxcluster_callsign"@, v) == (if v.len() > 0 { SettingsView { cluster: ClusterView { callsign: v, ..c.cluster }, ..c } } else { c }, f),
        apply_entry(c, f, "dxcluster_enabled"@, v) == (SettingsView { cluster: ClusterView { enabled: v != "false"@, ..c.cluster }, ..c }, f),
        apply_entry(c, f, "dxcluster_expiry_min"@, v) == (match parse_unsigned(v, u16::MAX as int) {
            Some(n) => SettingsView {
                cluster: ClusterView { expiry_min: if n < 1 { 1u16 } else { n as u16 }, ..c.cluster },
                ..c
            },
            None => c,
        }, f),
{
    reveal(apply_entry);
    reveal_strlit("tci");
    reveal_strlit("input");
    reveal_strlit("input2");
    reveal_strlit("output");
    reveal_strlit("anan_interface");
    reveal_strlit("thetis_path");
    reveal_strlit("yaesu_port");
    reveal_strlit("yaesu_enabled");
    reveal_strlit("false");
    reveal_strlit("yaesu_baud");
    reveal_strlit("yaesu_audio");
    reveal_strlit("amplitec_port");
    reveal_strlit("amplitec_enabled");
    reveal_strlit("amplitec_label");
    reveal_strlit("amplitec_a");
    reveal_strlit("amplitec_b");
    reveal_strlit("amplitec_window");
    reveal_strlit("true");
    reveal_strlit("enabled");
    reveal_strlit("model");
    reveal_strlit("mcp_serial");
    reveal_strlit("amplitec_pos");
    reveal_strlit("threshold_v");
    reveal_strlit("hysteresis_v");
    reveal_strlit("tuner_port");
    reveal_strlit("tuner_enabled");
    reveal_strlit("tuner_assume_tuned");
    reveal_strlit("tuner1_");
    reveal_strlit("tuner2_");
    reveal_strlit("tuner_window");
    reveal_strlit("tuner_safe_drive");
    reveal_strlit("tuner_pos_x");
    reveal_strlit("tuner_pos_y");
    reveal_strlit("amplitec_pos_x");
    reveal_strlit("amplitec_pos_y");
    reveal_strlit("main_pos_x");
    reveal_strlit("main_pos_y");
    reveal_strlit("main_size_w");
    reveal_strlit("main_size_h");
    reveal_strlit("tuner_size_w");
    reveal_strlit("tuner_size_h");
    reveal_strlit("amplitec_size_w");
    reveal_strlit("amplitec_size_h");
    reveal_strlit("spe_size_w");
    reveal_strlit("spe_size_h");
    reveal_strlit("rf2k_size_w");
    reveal_strlit("rf2k_size_h");
    reveal_strlit("ultrabeam_size_w");
    reveal_strlit("ultrabeam_size_h");
    reveal_strlit("rotor_size_w");
    reveal_strlit("rotor_size_h");
    reveal_strlit("autostart");
    reveal_strlit("active_pa");
    reveal_strlit("rf2k_saved_drive");
    reveal_strlit("spe_saved_drive");
    reveal_strlit("ultrabeam_show_menu");
    reveal_strlit("mcp2221_section_expanded");
    reveal_strlit("dxcluster_server");
    reveal_strlit("dxcluster_callsign");
    reveal_strlit("dxcluster_enabled");
    reveal_strlit("dxcluster_expiry_min");
    reveal_strlit("password");
    reveal_strlit("totp_secret");
    reveal_strlit("totp_enabled");
    reveal_strlit("friendly_name");
    reveal_strlit("spe_port");
    reveal_strlit("spe_enabled");
    reveal_strlit("spe_window");
    reveal_strlit("spe_pos_x");
    reveal_strlit("spe_pos_y");
    reveal_strlit("rf2k_addr");
    reveal_strlit("rf2k_enabled");
    reveal_strlit("rf2k_window");
    reveal_strlit("rf2k_pos_x");
    reveal_strlit("rf2k_pos_y");
    reveal_strlit("ultrabeam_port");
    reveal_strlit("ultrabeam_enabled");
    reveal_strlit("ultrabeam_window");
    reveal_strlit("ultrabeam_pos_x");
    reveal_strlit("ultrabeam_pos_y");
    reveal_strlit("rotor_addr");
    reveal_strlit("rotor_enabled");
    reveal_strlit("rotor_window");
    reveal_strlit("rotor_pos_x");
    reveal_strlit("rotor_pos_y");
    lemma_not_prefix("dxcluster_server"@, "amplitec_label"@, 0);
    lemma_not_prefix("dxcluster_server"@, "amplitec_a"@, 0);
    lemma_not_prefix("dxcluster_server"@, "amplitec_b"@, 0);
    lemma_not_prefix("dxcluster_server"@, "tuner1_"@, 0);
    lemma_not_prefix("dxcluster_server"@, "tuner2_"@, 0);
    lemma_differ("dxcluster_server"@, "amplitec_enabled"@, 0);
    lemma_differ("dxcluster_server"@, "tuner_safe_drive"@, 0);
    lemma_differ("dxcluster_server"@, "ultrabeam_size_w"@, 0);
    lemma_differ("dxcluster_server"@, "ultrabeam_size_h"@, 0);
    lemma_differ("dxcluster_server"@, "rf2k_saved_drive"@, 0);
    lemma_differ("dxcluster_server"@, "ultrabeam_window"@, 0);
    lemma_not_prefix("dxcluster_callsign"@, "amplitec_label"@, 0);
    lemma_not_prefix("dxcluster_callsign"@, "amplitec_a"@, 0);
    lemma_not_prefix("dxcluster_callsign"@, "amplitec_b"@, 0);
    lemma_not_prefix("dxcluster_callsign"@, "tuner1_"@, 0);
    lemma_not_prefix("dxcluster_callsign"@, "tuner2_"@, 0);
    lemma_differ("dxcluster_callsign"@, "tuner_assume_tuned"@, 0);
    lemma_not_prefix("dxcluster_enabled"@, "amplitec_label"@, 0);
    lemma_not_prefix("dxcluster_enabled"@, "amplitec_a"@, 0);
    lemma_not_prefix("dxcluster_enabled"@, "amplitec_b"@, 0);
    lemma_not_prefix("dxcluster_enabled"@, "tuner1_"@, 0);
    lemma_not_prefix("dxcluster_enabled"@, "tuner2_"@, 0);
    lemma_differ("dxcluster_enabled"@, "ultrabeam_enabled"@, 0);
    lemma_not_prefix("dxcluster_expiry_min"@, "amplitec_label"@, 0);
    lemma_not_prefix("dxcluster_expiry_min"@, "amplitec_a"@, 0);
    lemma_not_prefix("dxcluster_expiry_min"@, "amplitec_b"@, 0);
    lemma_not_prefix("dxcluster_expiry_min"@, "tuner1_"@, 0);
    lemma_not_prefix("dxcluster_expiry_min"@, "tuner2_"@, 0);
}

/// The access keys are read into their settings.
pub proof fn lemma_access_keys(c: SettingsView, f: FloatList, v: Seq<char>)
    ensures
        apply_entry(c, f, "password"@, v) == (if v.len() > 0 { SettingsView { access: AccessView { password: Some(v), ..c.access }, ..c } } else { c }, f),
        apply_entry(c, f, "totp_secret"@, v) == (if v.len() > 0 { SettingsView { access: AccessView { totp_secret: Some(v), ..c.access }, ..c } } else { c }, f),
        apply_entry(c, f, "totp_enabled"@, v) == (SettingsView { access: AccessView { totp_enabled: v == "true"@, ..c.access }, ..c }, f),
        apply_entry(c, f, "friendly_name"@, v) == (if v.len() > 0 { SettingsView { access: AccessView { friendly_name: Some(v), ..c.access }, ..c } } else { c }, f),
{
    reveal(apply_entry);
    reveal_strlit("tci");
    reveal_strlit("input");
    reveal_strlit("input2");
    reveal_strlit("output");
    reveal_strlit("anan_interface");
    reveal_strlit("thetis_path");
    reveal_strlit("yaesu_port");
    reveal_strlit("yaesu_enabled");
    reveal_strlit("false");
    reveal_strlit("yaesu_baud");
    reveal_strlit("yaesu_audio");
    reveal_strlit("amplitec_port");
    reveal_strlit("amplitec_enabled");
    reveal_strlit("amplitec_label");
    reveal_strlit("amplitec_a");
    reveal_strlit("amplitec_b");
    reveal_strlit("amplitec_window");
    reveal_strlit("true");
    reveal_strlit("enabled");
    reveal_strlit("model");
    reveal_strlit("mcp_serial");
    reveal_strlit("amplitec_pos");
    reveal_strlit("threshold_v");
    reveal_strlit("hysteresis_v");
    reveal_strlit("tuner_port");
    reveal_strlit("tuner_enabled");
    reveal_strlit("tuner_assume_tuned");
    reveal_strlit("tuner1_");
    reveal_strlit("tuner2_");
    reveal_strlit("tuner_window");
    reveal_strlit("tuner_safe_drive");
    reveal_strlit("tuner_pos_x");
    reveal_strlit("tuner_pos_y");
    reveal_strlit("amplitec_pos_x");
    reveal_strlit("amplitec_pos_y");
    reveal_strlit("main_pos_x");
    reveal_strlit("main_pos_y");
    reveal_strlit("main_size_w");
    reveal_strlit("main_size_h");
    reveal_strlit("tuner_size_w");
    reveal_strlit("tuner_size_h");
    reveal_strlit("amplitec_size_w");
    reveal_strlit("amplitec_size_h");
    reveal_strlit("spe_size_w");
    reveal_strlit("spe_size_h");
    reveal_strlit("rf2k_size_w");
    reveal_strlit("rf2k_size_h");
    reveal_strlit("ultrabeam_size_w");
    reveal_strlit("ultrabeam_size_h");
    reveal_strlit("rotor_size_w");
    reveal_strlit("rotor_size_h");
    reveal_strlit("autostart");
    reveal_strlit("active_pa");
    reveal_strlit("rf2k_saved_drive");
    reveal_strlit("spe_saved_drive");
    reveal_strlit("ultrabeam_show_menu");
    reveal_strlit("mcp2221_section_expanded");
    reveal_strlit("dxcluster_server");
    reveal_strlit("dxcluster_callsign");
    reveal_strlit("dxcluster_enabled");
    reveal_strlit("dxcluster_expiry_min");
    reveal_strlit("password");
    reveal_strlit("totp_secret");
    reveal_strlit("totp_enabled");
    reveal_strlit("friendly_name");
    reveal_strlit("spe_port");
    reveal_strlit("spe_enabled");
    reveal_strlit("spe_window");
    reveal_strlit("spe_pos_x");
    reveal_strlit("spe_pos_y");
    reveal_strlit("rf2k_addr");
    reveal_strlit("rf2k_enabled");
    reveal_strlit("rf2k_window");
    reveal_strlit("rf2k_pos_x");
    reveal_strlit("rf2k_pos_y");
    reveal_strlit("ultrabeam_port");
    reveal_strlit("ultrabeam_enabled");
    reveal_strlit("ultrabeam_window");
    reveal_strlit("ultrabeam_pos_x");
    reveal_strlit("ultrabeam_pos_y");
    reveal_strlit("rotor_addr");
    reveal_strlit("rotor_enabled");
    reveal_strlit("rotor_window");
    reveal_strlit("rotor_pos_x");
    reveal_strlit("rotor_pos_y");
    lemma_not_prefix("password"@, "tuner1_"@, 0);
    lemma_not_prefix("password"@, "tuner2_"@, 0);
    lemma_differ("password"@, "spe_port"@, 0);
    lemma_not_prefix("totp_secret"@, "amplitec_a"@, 0);
    lemma_not_prefix("totp_secret"@, "amplitec_b"@, 0);
    lemma_not_prefix("totp_secret"@, "tuner1_"@, 1);
    lemma_not_prefix("totp_secret"@, "tuner2_"@, 1);
    lemma_differ("totp_secret"@, "thetis_path"@, 1);
    lemma_differ("totp_secret"@, "yaesu_audio"@, 0);
    lemma_differ("totp_secret"@, "threshold_v"@, 1);
    lemma_differ("totp_secret"@, "tuner_pos_x"@, 1);
    lemma_differ("totp_secret"@, "tuner_pos_y"@, 1);
    lemma_differ("totp_secret"@, "main_size_w"@, 0);
    lemma_differ("totp_secret"@, "main_size_h"@, 0);
    lemma_differ("totp_secret"@, "rf2k_size_w"@, 0);
    lemma_differ("totp_secret"@, "rf2k_size_h"@, 0);
    lemma_differ("totp_secret"@, "spe_enabled"@, 0);
    lemma_differ("totp_secret"@, "rf2k_window"@, 0);
    lemma_differ("totp_secret"@, "rotor_pos_x"@, 0);
    lemma_differ("totp_secret"@, "rotor_pos_y"@, 0);
    lemma_not_prefix("totp_enabled"@, "amplitec_a"@, 0);
    lemma_not_prefix("totp_enabled"@, "amplitec_b"@, 0);
    lemma_not_prefix("totp_enabled"@, "tuner1_"@, 1);
    lemma_not_prefix("totp_enabled"@, "tuner2_"@, 1);
    lemma_differ("totp_enabled"@, "amplitec_pos"@, 0);
    lemma_differ("totp_enabled"@, "hysteresis_v"@, 0);
    lemma_differ("totp_enabled"@, "tuner_window"@, 1);
    lemma_differ("totp_enabled"@, "tuner_size_w"@, 1);
    lemma_differ("totp_enabled"@, "tuner_size_h"@, 1);
    lemma_differ("totp_enabled"@, "rotor_size_w"@, 0);
    lemma_differ("totp_enabled"@, "rotor_size_h"@, 0);
    lemma_differ("totp_enabled"@, "rf2k_enabled"@, 0);
    lemma_differ("totp_enabled"@, "rotor_window"@, 0);
    lemma_not_prefix("friendly_name"@, "amplitec_a"@, 0);
    lemma_not_prefix("friendly_name"@, "amplitec_b"@, 0);
    lemma_not_prefix("friendly_name"@, "tuner1_"@, 0);
    lemma_not_prefix("friendly_name"@, "tuner2_"@, 0);
    lemma_differ("friendly_name"@, "yaesu_enabled"@, 0);
    lemma_differ("friendly_name"@, "amplitec_port"@, 0);
    lemma_differ("friendly_name"@, "tuner_enabled"@, 0);
    lemma_differ("friendly_name"@, "rotor_enabled"@, 0);
}

/// The keys of tuner slot 1 are read into its settings.
pub proof fn lemma_tuner1_keys(c: SettingsView, f: FloatList, v: Seq<char>)
    ensures
        apply_entry(c, f, "tuner1_enabled"@, v) == (SettingsView { tuners: TunerSlotsView { tuner1: TunerSettingsView { enabled: v != "false"@, ..c.tuners.tuner1 }, ..c.tuners }, ..c }, f),
        apply_entry(c, f, "tuner1_model"@, v) == (SettingsView { tuners: TunerSlotsView { tuner1: TunerSettingsView { model: TunerModel::spec_parse(v), ..c.tuners.tuner1 }, ..c.tuners }, ..c }, f),
        apply_entry(c, f, "tuner1_mcp_serial"@, v) == (SettingsView { tuners: TunerSlotsView { tuner1: TunerSettingsView { mcp_serial: v, ..c.tuners.tuner1 }, ..c.tuners }, ..c }, f),
        apply_entry(c, f, "tuner1_amplitec_pos"@, v) == (SettingsView { tuners: TunerSlotsView { tuner1: TunerSettingsView { amplitec_pos: antenna_position(v), ..c.tuners.tuner1 }, ..c.tuners }, ..c }, f),
        apply_entry(c, f, "tuner1_threshold_v"@, v) == (c, f.push((FloatSetting::TunerThreshold { slot: 0 }, v))),
        apply_entry(c, f, "tuner1_hysteresis_v"@, v) == (c, f.push((FloatSetting::TunerHysteresis { slot: 0 }, v))),
{
    reveal(apply_entry);
    reveal_strlit("tci");
    reveal_strlit("input");
    reveal_strlit("input2");
    reveal_strlit("output");
    reveal_strlit("anan_interface");
    reveal_strlit("thetis_path");
    reveal_strlit("yaesu_port");
    reveal_strlit("yaesu_enabled");
    reveal_strlit("false");
    reveal_strlit("yaesu_baud");
    reveal_strlit("yaesu_audio");
    reveal_strlit("amplitec_port");
    reveal_strlit("amplitec_enabled");
    reveal_strlit("amplitec_label");
    reveal_strlit("amplitec_a");
    reveal_strlit("amplitec_b");
    reveal_strlit("amplitec_window");
    reveal_strlit("true");
    reveal_strlit("enabled");
    reveal_strlit("model");
    reveal_strlit("mcp_serial");
    reveal_strlit("amplitec_pos");
    reveal_strlit("threshold_v");
    reveal_strlit("hysteresis_v");
    reveal_strlit("tuner_port");
    reveal_strlit("tuner_enabled");
    reveal_strlit("tuner_assume_tuned");
    reveal_strlit("tuner1_");
    reveal_strlit("tuner2_");
    reveal_strlit("tuner_window");
    reveal_strlit("tuner_safe_drive");
    reveal_strlit("tuner_pos_x");
    reveal_strlit("tuner_pos_y");
    reveal_strlit("amplitec_pos_x");
    reveal_strlit("amplitec_pos_y");
    reveal_strlit("main_pos_x");
    reveal_strlit("main_pos_y");
    reveal_strlit("main_size_w");
    reveal_strlit("main_size_h");
    reveal_strlit("tuner_size_w");
    reveal_strlit("tuner_size_h");
    reveal_strlit("amplitec_size_w");
    reveal_strlit("amplitec_size_h");
    reveal_strlit("spe_size_w");
    reveal_strlit("spe_size_h");
    reveal_strlit("rf2k_size_w");
    reveal_strlit("rf2k_size_h");
    reveal_strlit("ultrabeam_size_w");
    reveal_strlit("ultrabeam_size_h");
    reveal_strlit("rotor_size_w");
    reveal_strlit("rotor_size_h");
    reveal_strlit("autostart");
    reveal_strlit("active_pa");
    reveal_strlit("rf2k_saved_drive");
    reveal_strlit("spe_saved_drive");
    reveal_strlit("ultrabeam_show_menu");
    reveal_strlit("mcp2221_section_expanded");
    reveal_strlit("dxcluster_server");
    reveal_strlit("dxcluster_callsign");
    reveal_strlit("dxcluster_enabled");
    reveal_strlit("dxcluster_expiry_min");
    reveal_strlit("password");
    reveal_strlit("totp_secret");
    reveal_strlit("totp_enabled");
    reveal_strlit("friendly_name");
    reveal_strlit("spe_port");
    reveal_strlit("spe_enabled");
    reveal_strlit("spe_window");
    reveal_strlit("spe_pos_x");
    reveal_strlit("spe_pos_y");
    reveal_strlit("rf2k_addr");
    reveal_strlit("rf2k_enabled");
    reveal_strlit("rf2k_window");
    reveal_strlit("rf2k_pos_x");
    reveal_strlit("rf2k_pos_y");
    reveal_strlit("ultrabeam_port");
    reveal_strlit("ultrabeam_enabled");
    reveal_strlit("ultrabeam_window");
    reveal_strlit("ultrabeam_pos_x");
    reveal_strlit("ultrabeam_pos_y");
    reveal_strlit("rotor_addr");
    reveal_strlit("rotor_enabled");
    reveal_strlit("rotor_window");
    reveal_strlit("rotor_pos_x");
    reveal_strlit("rotor_pos_y");
    reveal_strlit("tuner1_enabled");
    reveal_strlit("tuner1_model");
    reveal_strlit("tuner1_mcp_serial");
    reveal_strlit("tuner1_amplitec_pos");
    reveal_strlit("tuner1_threshold_v");
    reveal_strlit("tuner1_hysteresis_v");
    lemma_not_prefix("tuner1_enabled"@, "amplitec_label"@, 0);
    lemma_not_prefix("tuner1_enabled"@, "amplitec_a"@, 0);
    lemma_not_prefix("tuner1_enabled"@, "amplitec_b"@, 0);
    lemma_not_prefix("tuner1_enabled"@, "tuner2_"@, 5);
    lemma_differ("tuner1_enabled"@, "anan_interface"@, 0);
    lemma_differ("tuner1_enabled"@, "amplitec_label"@, 0);
    lemma_differ("tuner1_enabled"@, "amplitec_pos_x"@, 0);
    lemma_differ("tuner1_enabled"@, "amplitec_pos_y"@, 0);
    lemma_differ("tuner1_enabled"@, "ultrabeam_port"@, 0);
    assert("tuner1_enabled"@.subrange(0, 7) =~= "tuner1_"@);
    assert(skip("tuner1_enabled"@, 7) =~= "enabled"@);
    lemma_differ("enabled"@, "tuner1_"@, 0);
    lemma_differ("enabled"@, "tuner2_"@, 0);
    lemma_not_prefix("tuner1_model"@, "amplitec_a"@, 0);
    lemma_not_prefix("tuner1_model"@, "amplitec_b"@, 0);
    lemma_not_prefix("tuner1_model"@, "tuner2_"@, 5);
    lemma_differ("tuner1_model"@, "amplitec_pos"@, 0);
    lemma_differ("tuner1_model"@, "hysteresis_v"@, 0);
    lemma_differ("tuner1_model"@, "tuner_window"@, 5);
    lemma_differ("tuner1_model"@, "tuner_size_w"@, 5);
    lemma_differ("tuner1_model"@, "tuner_size_h"@, 5);
    lemma_differ("tuner1_model"@, "rotor_size_w"@, 0);
    lemma_differ("tuner1_model"@, "rotor_size_h"@, 0);
    lemma_differ("tuner1_model"@, "totp_enabled"@, 1);
    lemma_differ("tuner1_model"@, "rf2k_enabled"@, 0);
    lemma_differ("tuner1_model"@, "rotor_window"@, 0);
    assert("tuner1_model"@.subrange(0, 7) =~= "tuner1_"@);
    assert(skip("tuner1_model"@, 7) =~= "model"@);
    lemma_differ("model"@, "input"@, 0);
    lemma_differ("model"@, "false"@, 0);
    lemma_not_prefix("tuner1_mcp_serial"@, "amplitec_label"@, 0);
    lemma_not_prefix("tuner1_mcp_serial"@, "amplitec_a"@, 0);
    lemma_not_prefix("tuner1_mcp_serial"@, "amplitec_b"@, 0);
    lemma_not_prefix("tuner1_mcp_serial"@, "tuner2_"@, 5);
    lemma_differ("tuner1_mcp_serial"@, "dxcluster_enabled"@, 0);
    lemma_differ("tuner1_mcp_serial"@, "ultrabeam_enabled"@, 0);
    assert("tuner1_mcp_serial"@.subrange(0, 7) =~= "tuner1_"@);
    assert(skip("tuner1_mcp_serial"@, 7) =~= "mcp_serial"@);
    lemma_differ("mcp_serial"@, "yaesu_port"@, 0);
    lemma_differ("mcp_serial"@, "yaesu_baud"@, 0);
    lemma_differ("mcp_serial"@, "amplitec_a"@, 0);
    lemma_differ("mcp_serial"@, "amplitec_b"@, 0);
    lemma_differ("mcp_serial"@, "tuner_port"@, 0);
    lemma_differ("mcp_serial"@, "main_pos_x"@, 1);
    lemma_differ("mcp_serial"@, "main_pos_y"@, 1);
    lemma_differ("mcp_serial"@, "spe_size_w"@, 0);
    lemma_differ("mcp_serial"@, "spe_size_h"@, 0);
    lemma_differ("mcp_serial"@, "spe_window"@, 0);
    lemma_differ("mcp_serial"@, "rf2k_pos_x"@, 0);
    lemma_differ("mcp_serial"@, "rf2k_pos_y"@, 0);
    lemma_differ("mcp_serial"@, "rotor_addr"@, 0);
    lemma_not_prefix("tuner1_amplitec_pos"@, "amplitec_label"@, 0);
    lemma_not_prefix("tuner1_amplitec_pos"@, "amplitec_a"@, 0);
    lemma_not_prefix("tuner1_amplitec_pos"@, "amplitec_b"@, 0);
    lemma_not_prefix("tuner1_amplitec_pos"@, "tuner2_"@, 5);
    lemma_differ("tuner1_amplitec_pos"@, "ultrabeam_show_menu"@, 0);
    assert("tuner1_amplitec_pos"@.subrange(0, 7) =~= "tuner1_"@);
    assert(skip("tuner1_amplitec_pos"@, 7) =~= "amplitec_pos"@);
    lemma_differ("amplitec_pos"@, "hysteresis_v"@, 0);
    lemma_differ("amplitec_pos"@, "tuner_window"@, 0);
    lemma_differ("amplitec_pos"@, "tuner_size_w"@, 0);
    lemma_differ("amplitec_pos"@, "tuner_size_h"@, 0);
    lemma_differ("amplitec_pos"@, "rotor_size_w"@, 0);
    lemma_differ("amplitec_pos"@, "rotor_size_h"@, 0);
    lemma_differ("amplitec_pos"@, "totp_enabled"@, 0);
    lemma_differ("amplitec_pos"@, "rf2k_enabled"@, 0);
    lemma_differ("amplitec_pos"@, "rotor_window"@, 0);
    lemma_not_prefix("tuner1_threshold_v"@, "amplitec_label"@, 0);
    lemma_not_prefix("tuner1_threshold_v"@, "amplitec_a"@, 0);
    lemma_not_prefix("tuner1_threshold_v"@, "amplitec_b"@, 0);
    lemma_not_prefix("tuner1_threshold_v"@, "tuner2_"@, 5);
    lemma_differ("tuner1_threshold_v"@, "tuner_assume_tuned"@, 5);
    lemma_differ("tuner1_threshold_v"@, "dxcluster_callsign"@, 0);
    assert("tuner1_threshold_v"@.subrange(0, 7) =~= "tuner1_"@);
    assert(skip("tuner1_threshold_v"@, 7) =~= "threshold_v"@);
    lemma_differ("threshold_v"@, "thetis_path"@, 2);
    lemma_differ("threshold_v"@, "yaesu_audio"@, 0);
    lemma_differ("threshold_v"@, "tuner_pos_x"@, 1);
    lemma_differ("threshold_v"@, "tuner_pos_y"@, 1);
    lemma_differ("threshold_v"@, "main_size_w"@, 0);
    lemma_differ("threshold_v"@, "main_size_h"@, 0);
    lemma_differ("threshold_v"@, "rf2k_size_w"@, 0);
    lemma_differ("threshold_v"@, "rf2k_size_h"@, 0);
    lemma_differ("threshold_v"@, "totp_secret"@, 1);
    lemma_differ("threshold_v"@, "spe_enabled"@, 0);
    lemma_differ("threshold_v"@, "rf2k_window"@, 0);
    lemma_differ("threshold_v"@, "rotor_pos_x"@, 0);
    lemma_differ("threshold_v"@, "rotor_pos_y"@, 0);
    lemma_not_prefix("tuner1_hysteresis_v"@, "amplitec_label"@, 0);
    lemma_not_prefix("tuner1_hysteresis_v"@, "amplitec_a"@, 0);
    lemma_not_prefix("tuner1_hysteresis_v"@, "amplitec_b"@, 0);
    lemma_not_prefix("tuner1_hysteresis_v"@, "tuner2_"@, 5);
    lemma_differ("tuner1_hysteresis_v"@, "ultrabeam_show_menu"@, 0);
    assert("tuner1_hysteresis_v"@.subrange(0, 7) =~= "tuner1_"@);
    assert(skip("tuner1_hysteresis_v"@, 7) =~= "hysteresis_v"@);
    lemma_differ("hysteresis_v"@, "amplitec_pos"@, 0);
    lemma_differ("hysteresis_v"@, "tuner_window"@, 0);
    lemma_differ("hysteresis_v"@, "tuner_size_w"@, 0);
    lemma_differ("hysteresis_v"@, "tuner_size_h"@, 0);
    lemma_differ("hysteresis_v"@, "rotor_size_w"@, 0);
    lemma_differ("hysteresis_v"@, "rotor_size_h"@, 0);
    lemma_differ("hysteresis_v"@, "totp_enabled"@, 0);
    lemma_differ("hysteresis_v"@, "rf2k_enabled"@, 0);
    lemma_differ("hysteresis_v"@, "rotor_window"@, 0);
}

/// The keys of tuner slot 2 are read into its settings.
pub proof fn lemma_tuner2_keys(c: SettingsView, f: FloatList, v: Seq<char>)
    ensures
        apply_entry(c, f, "tuner2_enabled"@, v) == (SettingsView { tuners: TunerSlotsView { tuner2: TunerSettingsView { enabled: v != "false"@, ..c.tuners.tuner2 }, ..c.tuners }, ..c }, f),
        apply_entry(c, f, "tuner2_model"@, v) == (SettingsView { tuners: TunerSlotsView { tuner2: TunerSettingsView { model: TunerModel::spec_parse(v), ..c.tuners.tuner2 }, ..c.tuners }, ..c }, f),
        apply_entry(c, f, "tuner2_mcp_serial"@, v) == (SettingsView { tuners: TunerSlotsView { tuner2: TunerSettingsView { mcp_serial: v, ..c.tuners.tuner2 }, ..c.tuners }, ..c }, f),
        apply_entry(c, f, "tuner2_amplitec_pos"@, v) == (SettingsView { tuners: TunerSlotsView { tuner2: TunerSettingsView { amplitec_pos: antenna_position(v), ..c.tuners.tuner2 }, ..c.tuners }, ..c }, f),
        apply_entry(c, f, "tuner2_threshold_v"@, v) == (c, f.push((FloatSetting::TunerThreshold { slot: 1 }, v))),
        apply_entry(c, f, "tuner2_hysteresis_v"@, v) == (c, f.push((FloatSetting::TunerHysteresis { slot: 1 }, v))),
{
    reveal(apply_entry);
    reveal_strlit("tci");
    reveal_strlit("input");
    reveal_strlit("input2");
    reveal_strlit("output");
    reveal_strlit("anan_interface");
    reveal_strlit("thetis_path");
    reveal_strlit("yaesu_port");
    reveal_strlit("yaesu_enabled");
    reveal_strlit("false");
    reveal_strlit("yaesu_baud");
    reveal_strlit("yaesu_audio");
    reveal_strlit("amplitec_port");
    reveal_strlit("amplitec_enabled");
    reveal_strlit("amplitec_label");
    reveal_strlit("amplitec_a");
    reveal_strlit("amplitec_b");
    reveal_strlit("amplitec_window");
    reveal_strlit("true");
    reveal_strlit("enabled");
    reveal_strlit("model");
    reveal_strlit("mcp_serial");
    reveal_strlit("amplitec_pos");
    reveal_strlit("threshold_v");
    reveal_strlit("hysteresis_v");
    reveal_strlit("tuner_port");
    reveal_strlit("tuner_enabled");
    reveal_strlit("tuner_assume_tuned");
    reveal_strlit("tuner1_");
    reveal_strlit("tuner2_");
    reveal_strlit("tuner_window");
    reveal_strlit("tuner_safe_drive");
    reveal_strlit("tuner_pos_x");
    reveal_strlit("tuner_pos_y");
    reveal_strlit("amplitec_pos_x");
    reveal_strlit("amplitec_pos_y");
    reveal_strlit("main_pos_x");
    reveal_strlit("main_pos_y");
    reveal_strlit("main_size_w");
    reveal_strlit("main_size_h");
    reveal_strlit("tuner_size_w");
    reveal_strlit("tuner_size_h");
    reveal_strlit("amplitec_size_w");
    reveal_strlit("amplitec_size_h");
    reveal_strlit("spe_size_w");
    reveal_strlit("spe_size_h");
    reveal_strlit("rf2k_size_w");
    reveal_strlit("rf2k_size_h");
    reveal_strlit("ultrabeam_size_w");
    reveal_strlit("ultrabeam_size_h");
    reveal_strlit("rotor_size_w");
    reveal_strlit("rotor_size_h");
    reveal_strlit("autostart");
    reveal_strlit("active_pa");
    reveal_strlit("rf2k_saved_drive");
    reveal_strlit("spe_saved_drive");
    reveal_strlit("ultrabeam_show_menu");
    reveal_strlit("mcp2221_section_expanded");
    reveal_strlit("dxcluster_server");
    reveal_strlit("dxcluster_callsign");
    reveal_strlit("dxcluster_enabled");
    reveal_strlit("dxcluster_expiry_min");
    reveal_strlit("password");
    reveal_strlit("totp_secret");
    reveal_strlit("totp_enabled");
    reveal_strlit("friendly_name");
    reveal_strlit("spe_port");
    reveal_strlit("spe_enabled");
    reveal_strlit("spe_window");
    reveal_strlit("spe_pos_x");
    reveal_strlit("spe_pos_y");
    reveal_strlit("rf2k_addr");
    reveal_strlit("rf2k_enabled");
    reveal_strlit("rf2k_window");
    reveal_strlit("rf2k_pos_x");
    reveal_strlit("rf2k_pos_y");
    reveal_strlit("ultrabeam_port");
    reveal_strlit("ultrabeam_enabled");
    reveal_strlit("ultrabeam_window");
    reveal_strlit("ultrabeam_pos_x");
    reveal_strlit("ultrabeam_pos_y");
    reveal_strlit("rotor_addr");
    reveal_strlit("rotor_enabled");
    reveal_strlit("rotor_window");
    reveal_strlit("rotor_pos_x");
    reveal_strlit("rotor_pos_y");
    reveal_strlit("tuner2_enabled");
    reveal_strlit("tuner2_model");
    reveal_strlit("tuner2_mcp_serial");
    reveal_strlit("tuner2_amplitec_pos");
    reveal_strlit("tuner2_threshold_v");
    reveal_strlit("tuner2_hysteresis_v");
    lemma_not_prefix("tuner2_enabled"@, "amplitec_label"@, 0);
    lemma_not_prefix("tuner2_enabled"@, "amplitec_a"@, 0);
    lemma_not_prefix("tuner2_enabled"@, "amplitec_b"@, 0);
    lemma_not_prefix("tuner2_enabled"@, "tuner1_"@, 5);
    lemma_differ("tuner2_enabled"@, "anan_interface"@, 0);
    lemma_differ("tuner2_enabled"@, "amplitec_label"@, 0);
    lemma_differ("tuner2_enabled"@, "amplitec_pos_x"@, 0);
    lemma_differ("tuner2_enabled"@, "amplitec_pos_y"@, 0);
    lemma_differ("tuner2_enabled"@, "ultrabeam_port"@, 0);
    assert("tuner2_enabled"@.subrange(0, 7) =~= "tuner2_"@);
    assert(skip("tuner2_enabled"@, 7) =~= "enabled"@);
    lemma_differ("enabled"@, "tuner1_"@, 0);
    lemma_differ("enabled"@, "tuner2_"@, 0);
    lemma_not_prefix("tuner2_model"@, "amplitec_a"@, 0);
    lemma_not_prefix("tuner2_model"@, "amplitec_b"@, 0);
    lemma_not_prefix("tuner2_model"@, "tuner1_"@, 5);
    lemma_differ("tuner2_model"@, "amplitec_pos"@, 0);
    lemma_differ("tuner2_model"@, "hysteresis_v"@, 0);
    lemma_differ("tuner2_model"@, "tuner_window"@, 5);
    lemma_differ("tuner2_model"@, "tuner_size_w"@, 5);
    lemma_differ("tuner2_model"@, "tuner_size_h"@, 5);
    lemma_differ("tuner2_model"@, "rotor_size_w"@, 0);
    lemma_differ("tuner2_model"@, "rotor_size_h"@, 0);
    lemma_differ("tuner2_model"@, "totp_enabled"@, 1);
    lemma_differ("tuner2_model"@, "rf2k_enabled"@, 0);
    lemma_differ("tuner2_model"@, "rotor_window"@, 0);
    assert("tuner2_model"@.subrange(0, 7) =~= "tuner2_"@);
    assert(skip("tuner2_model"@, 7) =~= "model"@);
    lemma_differ("model"@, "input"@, 0);
    lemma_differ("model"@, "false"@, 0);
    lemma_not_prefix("tuner2_mcp_serial"@, "amplitec_label"@, 0);
    lemma_not_prefix("tuner2_mcp_serial"@, "amplitec_a"@, 0);
    lemma_not_prefix("tuner2_mcp_serial"@, "amplitec_b"@, 0);
    lemma_not_prefix("tuner2_mcp_serial"@, "tuner1_"@, 5);
    lemma_differ("tuner2_mcp_serial"@, "dxcluster_enabled"@, 0);
    lemma_differ("tuner2_mcp_serial"@, "ultrabeam_enabled"@, 0);
    assert("tuner2_mcp_serial"@.subrange(0, 7) =~= "tuner2_"@);
    assert(skip("tuner2_mcp_serial"@, 7) =~= "mcp_serial"@);
    lemma_differ("mcp_serial"@, "yaesu_port"@, 0);
    lemma_differ("mcp_serial"@, "yaesu_baud"@, 0);
    lemma_differ("mcp_serial"@, "amplitec_a"@, 0);
    lemma_differ("mcp_serial"@, "amplitec_b"@, 0);
    lemma_differ("mcp_serial"@, "tuner_port"@, 0);
    lemma_differ("mcp_serial"@, "main_pos_x"@, 1);
    lemma_differ("mcp_serial"@, "main_pos_y"@, 1);
    lemma_differ("mcp_serial"@, "spe_size_w"@, 0);
    lemma_differ("mcp_serial"@, "spe_size_h"@, 0);
    lemma_differ("mcp_serial"@, "spe_window"@, 0);
    lemma_differ("mcp_serial"@, "rf2k_pos_x"@, 0);
    lemma_differ("mcp_serial"@, "rf2k_pos_y"@, 0);
    lemma_differ("mcp_serial"@, "rotor_addr"@, 0);
    lemma_not_prefix("tuner2_amplitec_pos"@, "amplitec_label"@, 0);
    lemma_not_prefix("tuner2_amplitec_pos"@, "amplitec_a"@, 0);
    lemma_not_prefix("tuner2_amplitec_pos"@, "amplitec_b"@, 0);
    lemma_not_prefix("tuner2_amplitec_pos"@, "tuner1_"@, 5);
    lemma_differ("tuner2_amplitec_pos"@, "ultrabeam_show_menu"@, 0);
    assert("tuner2_amplitec_pos"@.subrange(0, 7) =~= "tuner2_"@);
    assert(skip("tuner2_amplitec_pos"@, 7) =~= "amplitec_pos"@);
    lemma_differ("amplitec_pos"@, "hysteresis_v"@, 0);
    lemma_differ("amplitec_pos"@, "tuner_window"@, 0);
    lemma_differ("amplitec_pos"@, "tuner_size_w"@, 0);
    lemma_differ("amplitec_pos"@, "tuner_size_h"@, 0);
    lemma_differ("amplitec_pos"@, "rotor_size_w"@, 0);
    lemma_differ("amplitec_pos"@, "rotor_size_h"@, 0);
    lemma_differ("amplitec_pos"@, "totp_enabled"@, 0);
    lemma_differ("amplitec_pos"@, "rf2k_enabled"@, 0);
    lemma_differ("amplitec_pos"@, "rotor_window"@, 0);
    lemma_not_prefix("tuner2_threshold_v"@, "amplitec_label"@, 0);
    lemma_not_prefix("tuner2_threshold_v"@, "amplitec_a"@, 0);
    lemma_not_prefix("tuner2_threshold_v"@, "amplitec_b"@, 0);
    lemma_not_prefix("tuner2_threshold_v"@, "tuner1_"@, 5);
    lemma_differ("tuner2_threshold_v"@, "tuner_assume_tuned"@, 5);
    lemma_differ("tuner2_threshold_v"@, "dxcluster_callsign"@, 0);
    assert("tuner2_threshold_v"@.subrange(0, 7) =~= "tuner2_"@);
    assert(skip("tuner2_threshold_v"@, 7) =~= "threshold_v"@);
    lemma_differ("threshold_v"@, "thetis_path"@, 2);
    lemma_differ("threshold_v"@, "yaesu_audio"@, 0);
    lemma_differ("threshold_v"@, "tuner_pos_x"@, 1);
    lemma_differ("threshold_v"@, "tuner_pos_y"@, 1);
    lemma_differ("threshold_v"@, "main_size_w"@, 0);
    lemma_differ("threshold_v"@, "main_size_h"@, 0);
    lemma_differ("threshold_v"@, "rf2k_size_w"@, 0);
    lemma_differ("threshold_v"@, "rf2k_size_h"@, 0);
    lemma_differ("threshold_v"@, "totp_secret"@, 1);
    lemma_differ("threshold_v"@, "spe_enabled"@, 0);
    lemma_differ("threshold_v"@, "rf2k_window"@, 0);
    lemma_differ("threshold_v"@, "rotor_pos_x"@, 0);
    lemma_differ("threshold_v"@, "rotor_pos_y"@, 0);
    lemma_not_prefix("tuner2_hysteresis_v"@, "amplitec_label"@, 0);
    lemma_not_prefix("tuner2_hysteresis_v"@, "amplitec_a"@, 0);
    lemma_not_prefix("tuner2_hysteresis_v"@, "amplitec_b"@, 0);
    lemma_not_prefix("tuner2_hysteresis_v"@, "tuner1_"@, 5);
    lemma_differ("tuner2_hysteresis_v"@, "ultrabeam_show_menu"@, 0);
    assert("tuner2_hysteresis_v"@.subrange(0, 7) =~= "tuner2_"@);
    assert(skip("tuner2_hysteresis_v"@, 7) =~= "hysteresis_v"@);
    lemma_differ("hysteresis_v"@, "amplitec_pos"@, 0);
    lemma_differ("hysteresis_v"@, "tuner_window"@, 0);
    lemma_differ("hysteresis_v"@, "tuner_size_w"@, 0);
    lemma_differ("hysteresis_v"@, "tuner_size_h"@, 0);
    lemma_differ("hysteresis_v"@, "rotor_size_w"@, 0);
    lemma_differ("hysteresis_v"@, "rotor_size_h"@, 0);
    lemma_differ("hysteresis_v"@, "totp_enabled"@, 0);
    lemma_differ("hysteresis_v"@, "rf2k_enabled"@, 0);
    lemma_differ("hysteresis_v"@, "rotor_window"@, 0);
}

/// The six label keys are read into their labels.
pub proof fn lemma_label_keys(c: SettingsView, f: FloatList, v: Seq<char>)
    ensures
        apply_entry(c, f, "amplitec_label1"@, v) == (SettingsView { amplitec: AmplitecView { labels: c.amplitec.labels.update(0, v), ..c.amplitec }, ..c }, f),
        apply_entry(c, f, "amplitec_label2"@, v) == (SettingsView { amplitec: AmplitecView { labels: c.amplitec.labels.update(1, v), ..c.amplitec }, ..c }, f),
        apply_entry(c, f, "amplitec_label3"@, v) == (SettingsView { amplitec: AmplitecView { labels: c.amplitec.labels.update(2, v), ..c.amplitec }, ..c }, f),
        apply_entry(c, f, "amplitec_label4"@, v) == (SettingsView { amplitec: AmplitecView { labels: c.amplitec.labels.update(3, v), ..c.amplitec }, ..c }, f),
        apply_entry(c, f, "amplitec_label5"@, v) == (SettingsView { amplitec: AmplitecView { labels: c.amplitec.labels.update(4, v), ..c.amplitec }, ..c }, f),
        apply_entry(c, f, "amplitec_label6"@, v) == (SettingsView { amplitec: AmplitecView { labels: c.amplitec.labels.update(5, v), ..c.amplitec }, ..c }, f),
{
    reveal(apply_entry);
    reveal_strlit("tci");
    reveal_strlit("input");
    reveal_strlit("input2");
    reveal_strlit("output");
    reveal_strlit("anan_interface");
    reveal_strlit("thetis_path");
    reveal_strlit("yaesu_port");
    reveal_strlit("yaesu_enabled");
    reveal_strlit("false");
    reveal_strlit("yaesu_baud");
    reveal_strlit("yaesu_audio");
    reveal_strlit("amplitec_port");
    reveal_strlit("amplitec_enabled");
    reveal_strlit("amplitec_label");
    reveal_strlit("amplitec_a");
    reveal_strlit("amplitec_b");
    reveal_strlit("amplitec_window");
    reveal_strlit("true");
    reveal_strlit("enabled");
    reveal_strlit("model");
    reveal_strlit("mcp_serial");
    reveal_strlit("amplitec_pos");
    reveal_strlit("threshold_v");
    reveal_strlit("hysteresis_v");
    reveal_strlit("tuner_port");
    reveal_strlit("tuner_enabled");
    reveal_strlit("tuner_assume_tuned");
    reveal_strlit("tuner1_");
    reveal_strlit("tuner2_");
    reveal_strlit("tuner_window");
    reveal_strlit("tuner_safe_drive");
    reveal_strlit("tuner_pos_x");
    reveal_strlit("tuner_pos_y");
    reveal_strlit("amplitec_pos_x");
    reveal_strlit("amplitec_pos_y");
    reveal_strlit("main_pos_x");
    reveal_strlit("main_pos_y");
    reveal_strlit("main_size_w");
    reveal_strlit("main_size_h");
    reveal_strlit("tuner_size_w");
    reveal_strlit("tuner_size_h");
    reveal_strlit("amplitec_size_w");
    reveal_strlit("amplitec_size_h");
    reveal_strlit("spe_size_w");
    reveal_strlit("spe_size_h");
    reveal_strlit("rf2k_size_w");
    reveal_strlit("rf2k_size_h");
    reveal_strlit("ultrabeam_size_w");
    reveal_strlit("ultrabeam_size_h");
    reveal_strlit("rotor_size_w");
    reveal_strlit("rotor_size_h");
    reveal_strlit("autostart");
    reveal_strlit("active_pa");
    reveal_strlit("rf2k_saved_drive");
    reveal_strlit("spe_saved_drive");
    reveal_strlit("ultrabeam_show_menu");
    reveal_strlit("mcp2221_section_expanded");
    reveal_strlit("dxcluster_server");
    reveal_strlit("dxcluster_callsign");
    reveal_strlit("dxcluster_enabled");
    reveal_strlit("dxcluster_expiry_min");
    reveal_strlit("password");
    reveal_strlit("totp_secret");
    reveal_strlit("totp_enabled");
    reveal_strlit("friendly_name");
    reveal_strlit("spe_port");
    reveal_strlit("spe_enabled");
    reveal_strlit("spe_window");
    reveal_strlit("spe_pos_x");
    reveal_strlit("spe_pos_y");
    reveal_strlit("rf2k_addr");
    reveal_strlit("rf2k_enabled");
    reveal_strlit("rf2k_window");
    reveal_strlit("rf2k_pos_x");
    reveal_strlit("rf2k_pos_y");
    reveal_strlit("ultrabeam_port");
    reveal_strlit("ultrabeam_enabled");
    reveal_strlit("ultrabeam_window");
    reveal_strlit("ultrabeam_pos_x");
    reveal_strlit("ultrabeam_pos_y");
    reveal_strlit("rotor_addr");
    reveal_strlit("rotor_enabled");
    reveal_strlit("rotor_window");
    reveal_strlit("rotor_pos_x");
    reveal_strlit("rotor_pos_y");
    reveal_strlit("amplitec_label1");
    lemma_not_prefix("amplitec_label1"@, "amplitec_a"@, 9);
    lemma_not_prefix("amplitec_label1"@, "amplitec_b"@, 9);
    lemma_not_prefix("amplitec_label1"@, "tuner1_"@, 0);
    lemma_not_prefix("amplitec_label1"@, "tuner2_"@, 0);
    lemma_differ("amplitec_label1"@, "amplitec_window"@, 9);
    lemma_differ("amplitec_label1"@, "amplitec_size_w"@, 9);
    lemma_differ("amplitec_label1"@, "amplitec_size_h"@, 9);
    lemma_differ("amplitec_label1"@, "spe_saved_drive"@, 0);
    lemma_differ("amplitec_label1"@, "ultrabeam_pos_x"@, 0);
    lemma_differ("amplitec_label1"@, "ultrabeam_pos_y"@, 0);
    assert("amplitec_label1"@.subrange(0, 14) =~= "amplitec_label"@);
    assert(skip("amplitec_label1"@, 14) =~= seq!['1']);
    assert(seq!['1'].drop_last() =~= Seq::<char>::empty());
    assert(decimal_value(seq!['1'].drop_last()) == 0);
    assert(seq!['1'].last() as int - '0' as int == 1);
    assert(decimal_value(seq!['1']) == 1);
    reveal_strlit("amplitec_label2");
    lemma_not_prefix("amplitec_label2"@, "amplitec_a"@, 9);
    lemma_not_prefix("amplitec_label2"@, "amplitec_b"@, 9);
    lemma_not_prefix("amplitec_label2"@, "tuner1_"@, 0);
    lemma_not_prefix("amplitec_label2"@, "tuner2_"@, 0);
    lemma_differ("amplitec_label2"@, "amplitec_window"@, 9);
    lemma_differ("amplitec_label2"@, "amplitec_size_w"@, 9);
    lemma_differ("amplitec_label2"@, "amplitec_size_h"@, 9);
    lemma_differ("amplitec_label2"@, "spe_saved_drive"@, 0);
    lemma_differ("amplitec_label2"@, "ultrabeam_pos_x"@, 0);
    lemma_differ("amplitec_label2"@, "ultrabeam_pos_y"@, 0);
    assert("amplitec_label2"@.subrange(0, 14) =~= "amplitec_label"@);
    assert(skip("amplitec_label2"@, 14) =~= seq!['2']);
    assert(seq!['2'].drop_last() =~= Seq::<char>::empty());
    assert(decimal_value(seq!['2'].drop_last()) == 0);
    assert(seq!['2'].last() as int - '0' as int == 2);
    assert(decimal_value(seq!['2']) == 2);
    reveal_strlit("amplitec_label3");
    lemma_not_prefix("amplitec_label3"@, "amplitec_a"@, 9);
    lemma_not_prefix("amplitec_label3"@, "amplitec_b"@, 9);
    lemma_not_prefix("amplitec_label3"@, "tuner1_"@, 0);
    lemma_not_prefix("amplitec_label3"@, "tuner2_"@, 0);
    lemma_differ("amplitec_label3"@, "amplitec_window"@, 9);
    lemma_differ("amplitec_label3"@, "amplitec_size_w"@, 9);
    lemma_differ("amplitec_label3"@, "amplitec_size_h"@, 9);
    lemma_differ("amplitec_label3"@, "spe_saved_drive"@, 0);
    lemma_differ("amplitec_label3"@, "ultrabeam_pos_x"@, 0);
    lemma_differ("amplitec_label3"@, "ultrabeam_pos_y"@, 0);
    assert("amplitec_label3"@.subrange(0, 14) =~= "amplitec_label"@);
    assert(skip("amplitec_label3"@, 14) =~= seq!['3']);
    assert(seq!['3'].drop_last() =~= Seq::<char>::empty());
    assert(decimal_value(seq!['3'].drop_last()) == 0);
    assert(seq!['3'].last() as int - '0' as int == 3);
    assert(decimal_value(seq!['3']) == 3);
    reveal_strlit("amplitec_label4");
    lemma_not_prefix("amplitec_label4"@, "amplitec_a"@, 9);
    lemma_not_prefix("amplitec_label4"@, "amplitec_b"@, 9);
    lemma_not_prefix("amplitec_label4"@, "tuner1_"@, 0);
    lemma_not_prefix("amplitec_label4"@, "tuner2_"@, 0);
    lemma_differ("amplitec_label4"@, "amplitec_window"@, 9);
    lemma_differ("amplitec_label4"@, "amplitec_size_w"@, 9);
    lemma_differ("amplitec_label4"@, "amplitec_size_h"@, 9);
    lemma_differ("amplitec_label4"@, "spe_saved_drive"@, 0);
    lemma_differ("amplitec_label4"@, "ultrabeam_pos_x"@, 0);
    lemma_differ("amplitec_label4"@, "ultrabeam_pos_y"@, 0);
    assert("amplitec_label4"@.subrange(0, 14) =~= "amplitec_label"@);
    assert(skip("amplitec_label4"@, 14) =~= seq!['4']);
    assert(seq!['4'].drop_last() =~= Seq::<char>::empty());
    assert(decimal_value(seq!['4'].drop_last()) == 0);
    assert(seq!['4'].last() as int - '0' as int == 4);
    assert(decimal_value(seq!['4']) == 4);
    reveal_strlit("amplitec_label5");
    lemma_not_prefix("amplitec_label5"@, "amplitec_a"@, 9);
    lemma_not_prefix("amplitec_label5"@, "amplitec_b"@, 9);
    lemma_not_prefix("amplitec_label5"@, "tuner1_"@, 0);
    lemma_not_prefix("amplitec_label5"@, "tuner2_"@, 0);
    lemma_differ("amplitec_label5"@, "amplitec_window"@, 9);
    lemma_differ("amplitec_label5"@, "amplitec_size_w"@, 9);
    lemma_differ("amplitec_label5"@, "amplitec_size_h"@, 9);
    lemma_differ("amplitec_label5"@, "spe_saved_drive"@, 0);
    lemma_differ("amplitec_label5"@, "ultrabeam_pos_x"@, 0);
    lemma_differ("amplitec_label5"@, "ultrabeam_pos_y"@, 0);
    assert("amplitec_label5"@.subrange(0, 14) =~= "amplitec_label"@);
    assert(skip("amplitec_label5"@, 14) =~= seq!['5']);
    assert(seq!['5'].drop_last() =~= Seq::<char>::empty());
    assert(decimal_value(seq!['5'].drop_last()) == 0);
    assert(seq!['5'].last() as int - '0' as int == 5);
    assert(decimal_value(seq!['5']) == 5);
    reveal_strlit("amplitec_label6");
    lemma_not_prefix("amplitec_label6"@, "amplitec_a"@, 9);
    lemma_not_prefix("amplitec_label6"@, "amplitec_b"@, 9);
    lemma_not_prefix("amplitec_label6"@, "tuner1_"@, 0);
    lemma_not_prefix("amplitec_label6"@, "tuner2_"@, 0);
    lemma_differ("amplitec_label6"@, "amplitec_window"@, 9);
    lemma_differ("amplitec_label6"@, "amplitec_size_w"@, 9);
    lemma_differ("amplitec_label6"@, "amplitec_size_h"@, 9);
    lemma_differ("amplitec_label6"@, "spe_saved_drive"@, 0);
    lemma_differ("amplitec_label6"@, "ultrabeam_pos_x"@, 0);
    lemma_differ("amplitec_label6"@, "ultrabeam_pos_y"@, 0);
    assert("amplitec_label6"@.subrange(0, 14) =~= "amplitec_label"@);
    assert(skip("amplitec_label6"@, 14) =~= seq!['6']);
    assert(seq!['6'].drop_last() =~= Seq::<char>::empty());
    assert(decimal_value(seq!['6'].drop_last()) == 0);
    assert(seq!['6'].last() as int - '0' as int == 6);
    assert(decimal_value(seq!['6']) == 6);
}

} // verus!
