use sdr_remote::settings::{
    default_labels, detect_thetis_path, labels_string, save_active_pa,
    save_mcp2221_section_expanded, save_saved_drive, save_ultrabeam_show_menu,
    thetis_default_path, FloatEntry, FloatSetting, ServerSettings, TunerModel, Window,
};
use sdr_remote::settings_file::load_settings;
use sdr_remote::settings_save::settings_file_text;

fn defaults() -> ServerSettings {
    ServerSettings::with_thetis_path(None)
}

#[test]
fn tuner_model_labels_and_tokens() {
    assert_eq!(TunerModel::Jc4s.label(), "JC-4s");
    assert_eq!(TunerModel::Jc3s.label(), "JC-3s");
    assert_eq!(TunerModel::Jc4s.as_str(), "jc-4s");
    assert_eq!(TunerModel::Jc3s.as_str(), "jc-3s");
}

#[test]
fn tuner_model_parse_accepts_case_and_spaces() {
    assert_eq!(TunerModel::parse("jc-3s"), TunerModel::Jc3s);
    assert_eq!(TunerModel::parse("  JC3S \t"), TunerModel::Jc3s);
    assert_eq!(TunerModel::parse("Jc-3S"), TunerModel::Jc3s);
    assert_eq!(TunerModel::parse("jc-4s"), TunerModel::Jc4s);
    assert_eq!(TunerModel::parse("unknown"), TunerModel::Jc4s);
    assert_eq!(TunerModel::parse(""), TunerModel::Jc4s);
    assert_eq!(TunerModel::parse("jc-3s extra"), TunerModel::Jc4s);
}

#[test]
fn tuner_model_token_and_label_read_back() {
    for m in [TunerModel::Jc4s, TunerModel::Jc3s] {
        assert_eq!(TunerModel::parse(m.as_str()), m);
        assert_eq!(TunerModel::parse(m.label()), m);
    }
}

#[test]
fn default_labels_are_numbered() {
    let labels = default_labels("Ant");
    assert_eq!(labels, ["Ant1", "Ant2", "Ant3", "Ant4", "Ant5", "Ant6"].map(String::from));
}

#[test]
fn labels_string_sends_six_labels_twice() {
    let s = defaults();
    assert_eq!(labels_string(&s), "Ant1,Ant2,Ant3,Ant4,Ant5,Ant6,Ant1,Ant2,Ant3,Ant4,Ant5,Ant6");
}

#[test]
fn thetis_path_only_when_installed() {
    assert_eq!(detect_thetis_path(false), None);
    assert_eq!(detect_thetis_path(true).as_deref(), Some(thetis_default_path()));
    assert_eq!(thetis_default_path(), r"C:\Program Files\OpenHPSDR\Thetis\Thetis.exe");
}

#[test]
fn defaults_match_documented_values() {
    let s = defaults();
    assert!(s.radio.spectrum_enabled);
    assert_eq!(s.radio.yaesu_baud, 38400);
    assert!(!s.radio.yaesu_enabled);
    assert!(s.amplitec.enabled);
    assert!(s.spe.enabled && s.rf2k.enabled && s.ultrabeam.enabled && s.rotor.enabled);
    assert_eq!(s.session.active_pa, 0);
    assert!(s.session.mcp2221_section_expanded);
    assert_eq!(s.cluster.server, "dxc.pi4cc.nl:8000");
    assert_eq!(s.cluster.callsign, "PA3GHM");
    assert_eq!(s.cluster.expiry_min, 10);
    assert!(!s.tuners.tuner1.enabled);
    assert_eq!(s.tuners.tuner2.model, TunerModel::Jc4s);
}

#[test]
fn save_helpers_change_one_field() {
    let mut s = defaults();
    save_active_pa(&mut s, 2);
    assert_eq!(s.session.active_pa, 2);
    save_saved_drive(&mut s, 1, Some(40));
    assert_eq!(s.session.spe_saved_drive, Some(40));
    assert_eq!(s.session.rf2k_saved_drive, None);
    save_saved_drive(&mut s, 2, Some(55));
    assert_eq!(s.session.rf2k_saved_drive, Some(55));
    save_saved_drive(&mut s, 7, Some(1));
    assert_eq!(s.session.spe_saved_drive, Some(40));
    assert_eq!(s.session.rf2k_saved_drive, Some(55));
    save_saved_drive(&mut s, 1, None);
    assert_eq!(s.session.spe_saved_drive, None);
    save_ultrabeam_show_menu(&mut s, true);
    assert!(s.session.ultrabeam_show_menu);
    save_mcp2221_section_expanded(&mut s, false);
    assert!(!s.session.mcp2221_section_expanded);
}

#[test]
fn load_empty_text_gives_defaults() {
    let (s, floats) = load_settings("", Some("C:\\x.exe".to_string()));
    assert_eq!(s.radio.thetis_path.as_deref(), Some("C:\\x.exe"));
    assert!(floats.is_empty());
    assert_eq!(s.radio.yaesu_baud, 38400);
}

#[test]
fn load_reads_text_bool_and_number_keys() {
    let text = "tci = 127.0.0.1:40001 \r\nyaesu_enabled=true\nyaesu_baud=9600\nspe_enabled=false\nrf2k_window=yes\nautostart=true\n";
    let (s, _) = load_settings(text, None);
    assert_eq!(s.radio.tci_addr.as_deref(), Some("127.0.0.1:40001"));
    assert!(s.radio.yaesu_enabled);
    assert_eq!(s.radio.yaesu_baud, 9600);
    assert!(!s.spe.enabled);
    assert!(!s.rf2k.show_window);
    assert!(s.session.autostart);
}

#[test]
fn load_ignores_bad_numbers_and_unknown_lines() {
    let text = "yaesu_baud=fast\n# comment\nno equals sign\nmystery=1\nactive_pa=300\ndxcluster_expiry_min=0\n";
    let (s, floats) = load_settings(text, None);
    assert_eq!(s.radio.yaesu_baud, 38400);
    assert_eq!(s.session.active_pa, 0);
    assert_eq!(s.cluster.expiry_min, 1);
    assert!(floats.is_empty());
}

#[test]
fn load_empty_text_values() {
    let text = "tci=\ndxcluster_server=\npassword=\nfriendly_name=  \n";
    let (s, _) = load_settings(text, Some("p".to_string()));
    assert_eq!(s.radio.tci_addr, None);
    assert_eq!(s.cluster.server, "dxc.pi4cc.nl:8000");
    assert_eq!(s.access.password, None);
    assert_eq!(s.access.friendly_name, None);
    let (s2, _) = load_settings("thetis_path=", Some("p".to_string()));
    assert_eq!(s2.radio.thetis_path, None);
}

#[test]
fn load_labels_and_legacy_keys() {
    let text = "amplitec_label2=Beam\namplitec_a3=Dipole\namplitec_b4=Ignored\namplitec_label7=Nope\namplitec_label+5=Plus\n";
    let (s, _) = load_settings(text, None);
    assert_eq!(s.amplitec.labels[1], "Beam");
    assert_eq!(s.amplitec.labels[2], "Dipole");
    assert_eq!(s.amplitec.labels[3], "Ant4");
    assert_eq!(s.amplitec.labels[4], "Plus");
    assert_eq!(s.amplitec.labels[5], "Ant6");
}

#[test]
fn load_tuner_slots() {
    let text = "tuner_enabled=true\ntuner1_model=JC-3S\ntuner1_mcp_serial=ABC\ntuner1_amplitec_pos=4\ntuner2_enabled=true\ntuner2_amplitec_pos=9\ntuner2_threshold_v=2.5\ntuner1_hysteresis_v=0.4\ntuner2_unknown=1\n";
    let (s, floats) = load_settings(text, None);
    assert!(s.tuners.tuner1.enabled);
    assert_eq!(s.tuners.tuner1.model, TunerModel::Jc3s);
    assert_eq!(s.tuners.tuner1.mcp_serial, "ABC");
    assert_eq!(s.tuners.tuner1.amplitec_pos, Some(4));
    assert!(s.tuners.tuner2.enabled);
    assert_eq!(s.tuners.tuner2.amplitec_pos, None);
    assert_eq!(floats.len(), 2);
    assert_eq!(floats[0].setting, FloatSetting::TunerThreshold { slot: 1 });
    assert_eq!(floats[0].value, "2.5");
    assert_eq!(floats[1].setting, FloatSetting::TunerHysteresis { slot: 0 });
    assert_eq!(floats[1].value, "0.4");
}

#[test]
fn load_window_geometry_as_float_entries() {
    let text = "main_pos_x=10.5\nmain_pos_y=-3\nrotor_size_h=200\ntuner_pos_x= 7 \n";
    let (_, floats) = load_settings(text, None);
    assert_eq!(floats.len(), 4);
    assert_eq!(floats[0].setting, FloatSetting::WindowPos { window: Window::Main, index: 0 });
    assert_eq!(floats[1].value, "-3");
    assert_eq!(floats[2].setting, FloatSetting::WindowSize { window: Window::Rotor, index: 1 });
    assert_eq!(floats[3].setting, FloatSetting::WindowPos { window: Window::Tuner, index: 0 });
    assert_eq!(floats[3].value, "7");
}

#[test]
fn load_saved_drives_and_access() {
    let text = "rf2k_saved_drive=42\nspe_saved_drive=\nspe_saved_drive=bad\npassword=secret\ntotp_enabled=true\nfriendly_name=Shack PC\ndxcluster_callsign=N0CALL\n";
    let (s, _) = load_settings(text, None);
    assert_eq!(s.session.rf2k_saved_drive, Some(42));
    assert_eq!(s.session.spe_saved_drive, None);
    assert_eq!(s.access.password.as_deref(), Some("secret"));
    assert!(s.access.totp_enabled);
    assert_eq!(s.access.friendly_name.as_deref(), Some("Shack PC"));
    assert_eq!(s.cluster.callsign, "N0CALL");
}

#[test]
fn load_later_lines_win() {
    let (s, _) = load_settings("active_pa=1\nactive_pa=2\n", None);
    assert_eq!(s.session.active_pa, 2);
}

#[test]
fn saved_text_starts_with_link_lines() {
    let s = defaults();
    let text = settings_file_text(&s, &Vec::new());
    assert!(text.starts_with("tci=\nthetis_path=\nyaesu_port=\nyaesu_enabled=false\nyaesu_baud=38400\n"));
    assert!(text.contains("tuner1_enabled=false\ntuner1_model=jc-4s\ntuner1_mcp_serial=\ntuner1_amplitec_pos=\n"));
    assert!(text.contains("amplitec_label1=Ant1\n"));
    assert!(text.ends_with("dxcluster_expiry_min=10\ntotp_enabled=false\n"));
    assert!(!text.contains("main_pos_x"));
}

#[test]
fn saved_text_reads_back() {
    let text = "tci=1.2.3.4:5\nyaesu_baud=115200\nspe_port=COM6\nrotor_enabled=false\ntuner2_model=jc-3s\ntuner2_amplitec_pos=3\namplitec_label6=Loop\nactive_pa=2\nrf2k_saved_drive=17\ndxcluster_expiry_min=25\nfriendly_name=Shack\nmain_pos_x=1\nmain_pos_y=2\n";
    let (s, floats) = load_settings(text, None);
    let saved = settings_file_text(&s, &floats);
    assert!(saved.contains("main_pos_x=1\nmain_pos_y=2\n"));
    let (again, floats_again) = load_settings(&saved, None);
    assert_eq!(settings_file_text(&again, &floats_again), saved);
    assert_eq!(again.radio.tci_addr.as_deref(), Some("1.2.3.4:5"));
    assert_eq!(again.radio.yaesu_baud, 115200);
    assert_eq!(again.spe.port.as_deref(), Some("COM6"));
    assert!(!again.rotor.enabled);
    assert_eq!(again.tuners.tuner2.model, TunerModel::Jc3s);
    assert_eq!(again.tuners.tuner2.amplitec_pos, Some(3));
    assert_eq!(again.amplitec.labels[5], "Loop");
    assert_eq!(again.session.active_pa, 2);
    assert_eq!(again.session.rf2k_saved_drive, Some(17));
    assert_eq!(again.cluster.expiry_min, 25);
    assert_eq!(again.access.friendly_name.as_deref(), Some("Shack"));
}

fn entry(setting: FloatSetting, value: &str) -> FloatEntry {
    FloatEntry { setting, value: value.to_string() }
}

#[test]
fn saved_float_entries_read_back_in_file_order() {
    let floats = vec![
        entry(FloatSetting::TunerHysteresis { slot: 1 }, "0.6"),
        entry(FloatSetting::WindowPos { window: Window::Main, index: 0 }, "5"),
        entry(FloatSetting::WindowSize { window: Window::Rotor, index: 0 }, "300"),
        entry(FloatSetting::WindowSize { window: Window::Rotor, index: 1 }, "200"),
        entry(FloatSetting::TunerThreshold { slot: 0 }, "2.0"),
        entry(FloatSetting::TunerThreshold { slot: 0 }, "9"),
    ];
    let text = settings_file_text(&defaults(), &floats);
    let (_, back) = load_settings(&text, None);
    let expected = vec![
        entry(FloatSetting::TunerThreshold { slot: 0 }, "2.0"),
        entry(FloatSetting::TunerHysteresis { slot: 1 }, "0.6"),
        entry(FloatSetting::WindowSize { window: Window::Rotor, index: 0 }, "300"),
        entry(FloatSetting::WindowSize { window: Window::Rotor, index: 1 }, "200"),
    ];
    assert_eq!(back.len(), expected.len());
    for (b, e) in back.iter().zip(expected.iter()) {
        assert_eq!(b.setting, e.setting);
        assert_eq!(b.value, e.value);
    }
}

#[test]
fn load_change_save_load_keeps_the_change() {
    let text = "  tci = 1.2.3.4:5  \namplitec_label2=  Beam  \ndxcluster_server=\ndxcluster_expiry_min=0\ntuner1_amplitec_pos=9\nfriendly_name=  Shack\t\nrotor_addr=\n";
    let (mut s, floats) = load_settings(text, Some("C:\\Thetis.exe".to_string()));
    save_saved_drive(&mut s, 2, Some(33));
    let saved = settings_file_text(&s, &floats);
    let (again, _) = load_settings(&saved, Some("C:\\Thetis.exe".to_string()));
    assert_eq!(settings_file_text(&again, &floats), saved);
    assert_eq!(again.session.rf2k_saved_drive, Some(33));
    assert_eq!(again.radio.tci_addr.as_deref(), Some("1.2.3.4:5"));
    assert_eq!(again.amplitec.labels[1], "Beam");
    assert_eq!(again.cluster.expiry_min, 1);
    assert_eq!(again.tuners.tuner1.amplitec_pos, None);
    assert_eq!(again.access.friendly_name.as_deref(), Some("Shack"));
}
