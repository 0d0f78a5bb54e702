use sdr_remote::vrx::{
    channel_bin_copies, feed_audio, feed_frame_sent, feed_gate, fft_n_for_rate, fft_n_for_rates, filter_to_audio_bins,
    ifft_n_for_output_rate, FeedState,
    listen_offset_hz, needs_rebuild, output_rate_hz_for, rate_mode_wants_wideband, VrxMode,
    VrxRateMode, VrxRuntimeOptions, AUTO_WB_HYSTERESIS_HZ, AUTO_WB_THRESHOLD_HZ,
    NB_OUTPUT_RATE_HZ, WB_OUTPUT_RATE_HZ,
};

#[test]
fn mode_names_parse_in_any_case() {
    assert_eq!(VrxMode::parse("usb"), Some(VrxMode::Usb));
    assert_eq!(VrxMode::parse("LSB"), Some(VrxMode::Lsb));
    assert_eq!(VrxMode::parse("Am"), Some(VrxMode::Am));
    assert_eq!(VrxMode::parse("sAm"), Some(VrxMode::Sam));
    assert_eq!(VrxMode::parse("FM"), Some(VrxMode::Fm));
    assert_eq!(VrxMode::parse(" usb"), None);
    assert_eq!(VrxMode::parse("cw"), None);
    assert_eq!(VrxMode::parse(""), None);
}

#[test]
fn rate_mode_from_byte() {
    assert_eq!(VrxRateMode::from_u8(0), VrxRateMode::Nb);
    assert_eq!(VrxRateMode::from_u8(1), VrxRateMode::Wb);
    assert_eq!(VrxRateMode::from_u8(2), VrxRateMode::Auto);
    assert_eq!(VrxRateMode::from_u8(200), VrxRateMode::Nb);
}

#[test]
fn fixed_rate_modes_ignore_the_filter() {
    assert!(!rate_mode_wants_wideband(VrxRateMode::Nb, 0, 8000, true));
    assert!(rate_mode_wants_wideband(VrxRateMode::Wb, 0, 100, false));
}

#[test]
fn auto_switches_up_at_threshold() {
    assert_eq!(AUTO_WB_THRESHOLD_HZ, 4000);
    assert_eq!(AUTO_WB_HYSTERESIS_HZ, 250);
    assert!(rate_mode_wants_wideband(VrxRateMode::Auto, 0, 4000, false));
    assert!(!rate_mode_wants_wideband(VrxRateMode::Auto, 0, 3999, false));
    assert!(rate_mode_wants_wideband(VrxRateMode::Auto, -4500, -100, false));
}

#[test]
fn auto_hysteresis_keeps_wideband_in_band() {
    assert!(rate_mode_wants_wideband(VrxRateMode::Auto, 0, 3750, true));
    assert!(!rate_mode_wants_wideband(VrxRateMode::Auto, 0, 3749, true));
    assert!(!rate_mode_wants_wideband(VrxRateMode::Auto, 0, 3800, false));
    for bw in [3000, 3749, 3750, 3900, 3999, 4000, 6000] {
        for cur in [false, true] {
            let next = rate_mode_wants_wideband(VrxRateMode::Auto, -bw, bw / 2, cur);
            assert_eq!(rate_mode_wants_wideband(VrxRateMode::Auto, -bw, bw / 2, next), next);
        }
    }
}

#[test]
fn fft_sizes_match_bin_widths() {
    assert_eq!(ifft_n_for_output_rate(NB_OUTPUT_RATE_HZ), 128);
    assert_eq!(ifft_n_for_output_rate(WB_OUTPUT_RATE_HZ), 256);
    assert_eq!(ifft_n_for_output_rate(44100), 128);
    assert_eq!(fft_n_for_rates(384_000, 8000), 6144);
    assert_eq!(fft_n_for_rates(384_000, 16000), 6144);
    assert_eq!(fft_n_for_rates(192_000, 8000), 3072);
    assert_eq!(fft_n_for_rates(1_536_000, 16000), 24576);
    assert_eq!(fft_n_for_rates(4000, 8000), 128);
    assert_eq!(fft_n_for_rate(96_000), 1536);
}

#[test]
fn filter_edges_to_bins() {
    assert_eq!(filter_to_audio_bins(0, 3000, VrxMode::Usb), (0, 48));
    assert_eq!(filter_to_audio_bins(100, 2900, VrxMode::Usb), (2, 46));
    assert_eq!(filter_to_audio_bins(-2900, -100, VrxMode::Lsb), (2, 46));
    assert_eq!(filter_to_audio_bins(-3000, 3000, VrxMode::Am), (0, 48));
    assert_eq!(filter_to_audio_bins(-5000, 2000, VrxMode::Fm), (0, 80));
    assert_eq!(filter_to_audio_bins(3000, 100, VrxMode::Usb), (2, 48));
    assert_eq!(filter_to_audio_bins(-50, -20, VrxMode::Usb), (0, 0));
    assert_eq!(filter_to_audio_bins(31, 32, VrxMode::Usb), (0, 1));
}

#[test]
fn runtime_defaults_and_rates() {
    let o = VrxRuntimeOptions::default();
    assert_eq!(o.vrx_id, 0);
    assert!(o.wav_dir.is_none());
    assert_eq!(o.wav_segment_sec, 10);
    assert!(!o.wideband);
    assert_eq!(output_rate_hz_for(false), 8000);
    assert_eq!(output_rate_hz_for(true), 16000);
}

#[test]
fn listen_offset_uses_vfo_until_tuned() {
    assert_eq!(listen_offset_hz(0, 14_255_000, 14_250_000), 5000);
    assert_eq!(listen_offset_hz(14_200_000, 14_255_000, 14_250_000), -50_000);
    assert_eq!(listen_offset_hz(0, 0, u64::MAX), -(u64::MAX as i128));
}

#[test]
fn channelizer_rebuilt_on_change_only() {
    assert!(needs_rebuild(None, VrxMode::Usb, 384_000));
    assert!(!needs_rebuild(Some((VrxMode::Usb, 384_000)), VrxMode::Usb, 384_000));
    assert!(needs_rebuild(Some((VrxMode::Usb, 384_000)), VrxMode::Lsb, 384_000));
    assert!(needs_rebuild(Some((VrxMode::Usb, 384_000)), VrxMode::Usb, 192_000));
}

#[test]
fn feed_gate_and_frames() {
    let s = FeedState { buffered: 100, sequence: 7 };
    assert_eq!(feed_gate(s, false, 192000), (FeedState { buffered: 0, sequence: 7 }, false));
    assert_eq!(feed_gate(s, true, 0), (s, false));
    assert_eq!(feed_gate(s, true, 192000), (s, true));
    assert_eq!(feed_audio(s, 500, 160, true), (FeedState { buffered: 120, sequence: 7 }, 3));
    assert_eq!(feed_audio(s, 0, 160, true), (s, 0));
    assert_eq!(feed_audio(s, 500, 160, false), (s, 0));
    assert_eq!(feed_frame_sent(s).sequence, 8);
    assert_eq!(feed_frame_sent(FeedState { buffered: 0, sequence: u32::MAX }).sequence, 0);
}

#[test]
fn channel_bin_selection() {
    // upper sideband: bins above the carrier, wrapping
    assert_eq!(channel_bin_copies(VrxMode::Usb, 1022, 1024, 128, 1, 4), vec![(1, 1023), (2, 0), (3, 1)]);
    // lower sideband: bins below the carrier into the top slots
    assert_eq!(channel_bin_copies(VrxMode::Lsb, 1, 1024, 128, 0, 3), vec![(127, 0), (126, 1023), (125, 1022)]);
    // both sidebands, carrier first when the span starts at 0
    assert_eq!(
        channel_bin_copies(VrxMode::Am, 10, 1024, 128, 0, 2),
        vec![(0, 10), (1, 11), (127, 9), (2, 12), (126, 8)]
    );
    assert_eq!(channel_bin_copies(VrxMode::Fm, 10, 1024, 128, 2, 2), vec![(2, 12), (126, 8)]);
    // edges cut to half the inverse size
    assert_eq!(channel_bin_copies(VrxMode::Usb, 0, 1024, 8, 3, 100), vec![(3, 3)]);
    assert_eq!(channel_bin_copies(VrxMode::Usb, 0, 1024, 8, 5, 2), Vec::<(usize, usize)>::new());
}

#[test]
fn frames_are_numbered_without_gaps() {
    let mut s = FeedState { buffered: 0, sequence: u32::MAX - 1 };
    let mut seen = Vec::new();
    for _ in 0..4 {
        seen.push(s.sequence);
        s = feed_frame_sent(s);
    }
    assert_eq!(seen, vec![u32::MAX - 1, u32::MAX, 0, 1]);
    assert_eq!(s.sequence, 2);
}
