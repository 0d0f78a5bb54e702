use sdr_remote::audio_flow::{
    ddc_frames, frame_samples_for_rate, iq_rate_changes, iq_take, next_bundle_sequence,
    plan_bundler_tick, yaesu_step, BufferStep, BundlerTick, IqChannel, YaesuAction, YaesuEvent,
    YaesuTxState,
};

#[test]
fn twenty_ms_frames() {
    assert_eq!(frame_samples_for_rate(48000), 960);
    assert_eq!(frame_samples_for_rate(44100), 882);
    assert_eq!(frame_samples_for_rate(8000), 160);
}

#[test]
fn bundler_waits_for_a_frame_of_rx1() {
    let p = plan_bundler_tick(960, true, true, 959, 5000, 20000);
    assert_eq!(p.action, BundlerTick::Wait);
    assert_eq!(p.rx1, BufferStep { skip: 0, frame: false, keep: 959 });
    assert_eq!(p.rx2, BufferStep { skip: 0, frame: false, keep: 5000 });
    assert_eq!(p.bin_r, BufferStep { skip: 10400, frame: false, keep: 9600 });
    assert!(p.had_clients);
}

#[test]
fn bundler_without_clients_forgets_them() {
    let p = plan_bundler_tick(960, true, false, 20000, 0, 0);
    assert_eq!(p.action, BundlerTick::NoClients);
    assert_eq!(p.rx1, BufferStep { skip: 10400, frame: false, keep: 9600 });
    assert!(!p.had_clients);
}

#[test]
fn bundler_aligns_buffers_when_a_client_connects() {
    let p = plan_bundler_tick(960, false, true, 3000, 500, 1200);
    assert_eq!(p.action, BundlerTick::Encode);
    assert_eq!(p.rx1, BufferStep { skip: 2040, frame: true, keep: 0 });
    assert_eq!(p.rx2, BufferStep { skip: 0, frame: false, keep: 500 });
    assert_eq!(p.bin_r, BufferStep { skip: 240, frame: true, keep: 0 });
    assert!(p.had_clients);
}

#[test]
fn bundler_keeps_one_frame_of_side_channels() {
    let p = plan_bundler_tick(960, true, true, 2500, 2500, 900);
    assert_eq!(p.rx1, BufferStep { skip: 0, frame: true, keep: 1540 });
    assert_eq!(p.rx2, BufferStep { skip: 0, frame: true, keep: 960 });
    assert_eq!(p.bin_r, BufferStep { skip: 0, frame: false, keep: 900 });
}

#[test]
fn bundle_sequence_wraps() {
    assert_eq!(next_bundle_sequence(7, true), 8);
    assert_eq!(next_bundle_sequence(7, false), 7);
    assert_eq!(next_bundle_sequence(u32::MAX, true), 0);
}

#[test]
fn yaesu_loop_resets_encoder_then_encodes() {
    let frame = 960;
    let s = YaesuTxState { had_clients: false, sequence: 41, buffered: 0 };
    let (s, a) = yaesu_step(s, YaesuEvent::Samples(12000), frame);
    assert_eq!(a, YaesuAction::DropFront(2400));
    assert_eq!(s.buffered, 9600);
    let (s, a) = yaesu_step(s, YaesuEvent::Tick { clients: true }, frame);
    assert_eq!(a, YaesuAction::ResetEncoder);
    let (s2, a) = yaesu_step(s, YaesuEvent::EncoderReset { ok: false }, frame);
    assert_eq!(a, YaesuAction::Nothing);
    assert_eq!(s2, s);
    let (s, a) = yaesu_step(s, YaesuEvent::EncoderReset { ok: true }, frame);
    assert_eq!(a, YaesuAction::Clear);
    assert_eq!(s, YaesuTxState { had_clients: true, sequence: 0, buffered: 0 });
    let (s, a) = yaesu_step(s, YaesuEvent::Samples(1000), frame);
    assert_eq!(a, YaesuAction::Nothing);
    let (s, a) = yaesu_step(s, YaesuEvent::Tick { clients: true }, frame);
    assert_eq!(a, YaesuAction::EncodeFrame);
    assert_eq!(s.buffered, 40);
    let (s, a) = yaesu_step(s, YaesuEvent::Tick { clients: true }, frame);
    assert_eq!(a, YaesuAction::Nothing);
    let (s, _) = yaesu_step(s, YaesuEvent::FrameSent, frame);
    assert_eq!(s.sequence, 1);
    let (s, a) = yaesu_step(s, YaesuEvent::Tick { clients: false }, frame);
    assert_eq!(a, YaesuAction::Clear);
    assert_eq!(s, YaesuTxState { had_clients: false, sequence: 1, buffered: 0 });
}

#[test]
fn yaesu_sequence_wraps() {
    let s = YaesuTxState { had_clients: true, sequence: u32::MAX, buffered: 0 };
    let (s, _) = yaesu_step(s, YaesuEvent::FrameSent, 960);
    assert_eq!(s.sequence, 0);
}

#[test]
fn ddc_frames_overlap_by_hop() {
    assert_eq!(ddc_frames(5000, 2048, 1024), (3, 1928));
    assert_eq!(ddc_frames(2048, 2048, 1024), (1, 1024));
    assert_eq!(ddc_frames(100, 2048, 1024), (0, 100));
    assert_eq!(ddc_frames(4096, 2048, 2048), (2, 0));
}

#[test]
fn iq_channel_takes_batches() {
    assert!(iq_rate_changes(0, 192000));
    assert!(iq_rate_changes(192000, 384000));
    assert!(!iq_rate_changes(192000, 192000));
    assert!(!iq_rate_changes(192000, 0));
    let ch = IqChannel { fft_size: 2048, hop: 1024, buffered: 1000 };
    let (ch, frames) = iq_take(ch, 4000, 2048, 1024);
    assert_eq!(frames, 3);
    assert_eq!(ch, IqChannel { fft_size: 2048, hop: 1024, buffered: 1928 });
    let (ch, frames) = iq_take(ch, 100, 2048, 1024);
    assert_eq!(frames, 0);
    assert_eq!(ch.buffered, 2028);
    // a new frame size drops what was buffered, the batch included
    let (ch, frames) = iq_take(ch, 5000, 4096, 2048);
    assert_eq!(frames, 0);
    assert_eq!(ch, IqChannel { fft_size: 4096, hop: 2048, buffered: 0 });
}

#[test]
fn batches_add_up_to_the_frames_of_all_pairs() {
    // 6143 pairs then 1 more, frames of 4096 every 2048: no frame, then one
    let ch = IqChannel { fft_size: 4096, hop: 2048, buffered: 0 };
    let (ch, f1) = iq_take(ch, 6143, 4096, 2048);
    let (ch, f2) = iq_take(ch, 1, 4096, 2048);
    assert_eq!((f1, f2), (1, 1));
    assert_eq!(ch.buffered, 2048);
    let (all, left) = ddc_frames(6144, 4096, 2048);
    assert_eq!((all, left), (f1 + f2, ch.buffered));
}
