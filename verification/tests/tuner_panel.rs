use sdr_remote::settings::{ServerSettings, TunerModel};
use sdr_remote::tuner_panel::{
    amplitec_pos_text, channel_chip, client_line_text, client_needs_attention, device_dot_text, link_status_text, ChannelActivity, pick_tuner_position, pick_tuner_serial,
    position_option_text, position_options, prefill_serial_input, serial_options,
    serial_picker_text, serial_to_program,
};

fn strings(v: &[&str]) -> Vec<String> {
    v.iter().map(|s| s.to_string()).collect()
}

#[test]
fn serial_options_sorted_unique_with_current() {
    let scan = strings(&["tuner-b", "", "JC-3s loop", "tuner-b", "alpha"]);
    assert_eq!(serial_options(&scan, "zeta"), strings(&["JC-3s loop", "alpha", "tuner-b", "zeta"]));
    assert_eq!(serial_options(&scan, "alpha"), strings(&["JC-3s loop", "alpha", "tuner-b"]));
    assert_eq!(serial_options(&scan, ""), strings(&["JC-3s loop", "alpha", "tuner-b"]));
    assert_eq!(serial_options(&Vec::new(), ""), Vec::<String>::new());
    assert_eq!(serial_options(&Vec::new(), "only"), strings(&["only"]));
}

#[test]
fn serial_picker_texts() {
    assert_eq!(serial_picker_text("abc", true), "abc");
    assert_eq!(serial_picker_text("", true), "(first available)");
    assert_eq!(serial_picker_text("", false), "(select board)");
}

#[test]
fn position_texts() {
    let mut labels = ["Ant1", "", "Ant3", "Ant4", "Ant5", "Beam"].map(String::from);
    assert_eq!(position_option_text(1, "Ant1"), "1: Ant1");
    assert_eq!(position_option_text(2, ""), "2");
    assert_eq!(amplitec_pos_text(None, &labels), "(none)");
    assert_eq!(amplitec_pos_text(Some(6), &labels), "6: Beam");
    assert_eq!(amplitec_pos_text(Some(2), &labels), "2");
    assert_eq!(amplitec_pos_text(Some(0), &labels), "0 (out of range)");
    assert_eq!(amplitec_pos_text(Some(200), &labels), "200 (out of range)");
    labels[0] = String::new();
    assert_eq!(
        position_options(&labels),
        strings(&["1", "2", "3: Ant3", "4: Ant4", "5: Ant5", "6: Beam"])
    );
}

#[test]
fn picking_a_serial_enables_the_slot() {
    let mut s = ServerSettings::with_thetis_path(None);
    assert!(pick_tuner_serial(&mut s, 1, "JC-3s loop".to_string(), false));
    assert_eq!(s.tuners.tuner2.mcp_serial, "JC-3s loop");
    assert_eq!(s.tuners.tuner2.model, TunerModel::Jc3s);
    assert!(s.tuners.tuner2.enabled);
    assert!(!s.tuners.tuner1.enabled);
    // the same serial again changes nothing
    assert!(!pick_tuner_serial(&mut s, 1, "JC-3s loop".to_string(), true));
    // an empty serial is not taken by a disabled slot, but is by an enabled one
    assert!(!pick_tuner_serial(&mut s, 0, String::new(), false));
    assert!(pick_tuner_serial(&mut s, 1, String::new(), true));
    assert_eq!(s.tuners.tuner2.mcp_serial, "");
    assert_eq!(s.tuners.tuner2.model, TunerModel::Jc4s);
    // slots past the two change nothing
    assert!(!pick_tuner_serial(&mut s, 2, "x".to_string(), true));
}

#[test]
fn picking_a_position() {
    let mut s = ServerSettings::with_thetis_path(None);
    assert!(pick_tuner_position(&mut s, 0, Some(3)));
    assert_eq!(s.tuners.tuner1.amplitec_pos, Some(3));
    assert!(!pick_tuner_position(&mut s, 0, Some(3)));
    assert!(pick_tuner_position(&mut s, 0, None));
    assert_eq!(s.tuners.tuner1.amplitec_pos, None);
    assert!(!pick_tuner_position(&mut s, 5, Some(1)));
    assert_eq!(s.tuners.tuner2.amplitec_pos, None);
}

#[test]
fn serial_to_program_is_trimmed_and_not_empty() {
    assert_eq!(serial_to_program("  JC-4s loop \n"), Ok("JC-4s loop".to_string()));
    assert_eq!(serial_to_program(" \t "), Err("serial cannot be empty".to_string()));
    assert_eq!(serial_to_program(""), Err("serial cannot be empty".to_string()));
}

#[test]
fn serial_input_prefill() {
    let mut input = String::new();
    prefill_serial_input(&mut input, "board-1");
    assert_eq!(input, "board-1");
    prefill_serial_input(&mut input, "board-2");
    assert_eq!(input, "board-1");
    let mut empty = String::new();
    prefill_serial_input(&mut empty, "");
    assert_eq!(empty, "");
}

#[test]
fn device_dots() {
    assert_eq!(
        device_dot_text("SPE", true),
        ("\u{25cf}".to_string(), "SPE: configured at server-start".to_string())
    );
    assert_eq!(device_dot_text("RF2K", false), ("\u{25cb}".to_string(), "RF2K: not configured".to_string()));
}

#[test]
fn link_status_lines() {
    assert_eq!(link_status_text(true, Some(75)), "Connected  (1m 15s)");
    assert_eq!(link_status_text(true, None), "Connected  (\u{2014})");
    assert_eq!(link_status_text(false, Some(5)), "Disconnected  (for 5s)");
    assert_eq!(link_status_text(false, None), "Disconnected  (since startup)");
}

#[test]
fn channel_chips() {
    assert_eq!(channel_chip("RX1", None, 0), (ChannelActivity::Never, "RX1: never seen".to_string()));
    assert_eq!(
        channel_chip("RX2", Some(0), 1500),
        (ChannelActivity::Live, "RX2: 0s ago, 1500 frames since start".to_string())
    );
    assert_eq!(channel_chip("TX", Some(4), 7).0, ChannelActivity::Recent);
    assert_eq!(
        channel_chip("Y-RX", Some(3725), 9),
        (ChannelActivity::Idle, "Y-RX: 1h 2m ago, 9 frames since start".to_string())
    );
}

#[test]
fn client_lines() {
    assert_eq!(
        client_line_text("192.168.1.20:50000", 75, 12, 0, 3, 1),
        "  192.168.1.20:50000      connected 1m 15s    rtt=12ms  loss=0%  jitter=3ms   (seen 1s ago)"
    );
    let long = "[2001:db8::1234:5678]:50000";
    assert_eq!(
        client_line_text(long, 7300, 1, 2, 3, 9),
        format!("  {}  connected 2h 1m     rtt=1ms  loss=2%  jitter=3ms   (seen 9s ago)", long)
    );
    assert!(client_needs_attention(false, 0));
    assert!(client_needs_attention(true, 6));
    assert!(!client_needs_attention(true, 5));
}
