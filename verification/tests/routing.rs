use sdr_remote::routing::{
    channel_allowed, client_bundle, client_channels, use_wideband_payload, vrx_slot_index, CH_BIN_R, CH_RX1,
    CH_RX2,
};

#[test]
fn channels_by_audio_mode() {
    assert!(channel_allowed(255, CH_RX1, true));
    assert!(!channel_allowed(255, CH_RX2, true));
    assert!(channel_allowed(0, CH_RX2, true));
    assert!(!channel_allowed(0, CH_BIN_R, true));
    assert!(channel_allowed(1, CH_BIN_R, true));
    assert!(channel_allowed(2, CH_RX2, true));
    assert!(!channel_allowed(7, CH_RX2, true));
    assert!(channel_allowed(7, CH_RX1, false));
}

#[test]
fn rx2_switch_mutes_rx2_in_every_mode() {
    for mode in [0u8, 1, 2, 255] {
        assert!(!channel_allowed(mode, CH_RX2, false));
    }
}

#[test]
fn client_bundle_keeps_order() {
    let all = vec![(0u8, vec![1u8]), (1, vec![2, 3]), (2, vec![4])];
    assert_eq!(client_channels(&all, 1, true), all);
    assert_eq!(client_channels(&all, 0, true), vec![(0u8, vec![1u8]), (2, vec![4])]);
    assert_eq!(client_channels(&all, 1, false), vec![(0u8, vec![1u8]), (1, vec![2, 3])]);
    assert_eq!(client_channels(&all, 255, true), vec![(0u8, vec![1u8])]);
}

#[test]
fn wideband_only_when_wanted_and_present() {
    assert!(use_wideband_payload(true, 2));
    assert!(!use_wideband_payload(true, 0));
    assert!(!use_wideband_payload(false, 3));
}

#[test]
fn vrx_slots_fall_back_to_the_first() {
    assert_eq!(vrx_slot_index(0, 2), 0);
    assert_eq!(vrx_slot_index(1, 2), 1);
    assert_eq!(vrx_slot_index(2, 2), 0);
    assert_eq!(vrx_slot_index(9, 2), 0);
}

#[test]
fn one_bundle_per_client_or_none() {
    let nb = vec![(0u8, vec![1u8]), (1, vec![2]), (2, vec![3])];
    let wb = vec![(0u8, vec![9u8]), (2, vec![8])];
    assert_eq!(client_bundle(&nb, &wb, 0, true, false), Some(vec![(0u8, vec![1u8]), (2, vec![3])]));
    assert_eq!(client_bundle(&nb, &wb, 0, true, true), Some(vec![(0u8, vec![9u8]), (2, vec![8])]));
    assert_eq!(client_bundle(&nb, &Vec::new(), 1, false, true), Some(vec![(0u8, vec![1u8]), (1, vec![2])]));
    let only_rx2 = vec![(2u8, vec![5u8])];
    assert_eq!(client_bundle(&only_rx2, &Vec::new(), 0, false, false), None);
    assert_eq!(client_bundle(&only_rx2, &Vec::new(), 255, true, false), None);
    assert_eq!(client_bundle(&Vec::new(), &Vec::new(), 1, true, true), None);
}
