use sdr_remote::wav::{
    patch_wav_header, segment_samples, segment_take, wav_sizes, write_wav_header, WAV_HEADER_LEN,
};

#[test]
fn header_layout_for_empty_file() {
    let mut out = Vec::new();
    write_wav_header(&mut out, 8000, 0);
    assert_eq!(out.len(), WAV_HEADER_LEN);
    assert_eq!(&out[0..4], b"RIFF");
    assert_eq!(&out[4..8], &36u32.to_le_bytes());
    assert_eq!(&out[8..12], b"WAVE");
    assert_eq!(&out[12..16], b"fmt ");
    assert_eq!(&out[16..20], &16u32.to_le_bytes());
    assert_eq!(&out[20..22], &1u16.to_le_bytes());
    assert_eq!(&out[22..24], &1u16.to_le_bytes());
    assert_eq!(&out[24..28], &8000u32.to_le_bytes());
    assert_eq!(&out[28..32], &16000u32.to_le_bytes());
    assert_eq!(&out[32..34], &2u16.to_le_bytes());
    assert_eq!(&out[34..36], &16u16.to_le_bytes());
    assert_eq!(&out[36..40], b"data");
    assert_eq!(&out[40..44], &0u32.to_le_bytes());
}

#[test]
fn header_appends_after_existing_bytes() {
    let mut out = vec![9u8, 9];
    write_wav_header(&mut out, 16000, 100);
    assert_eq!(out.len(), 46);
    assert_eq!(&out[0..2], &[9, 9]);
    assert_eq!(&out[6..10], &236u32.to_le_bytes());
    assert_eq!(&out[42..46], &200u32.to_le_bytes());
}

#[test]
fn sizes_saturate() {
    assert_eq!(wav_sizes(10), (20, 56));
    assert_eq!(wav_sizes(u32::MAX), (u32::MAX, u32::MAX));
    assert_eq!(wav_sizes(u32::MAX / 2 - 1), (u32::MAX - 3, u32::MAX));
}

#[test]
fn patched_header_equals_header_written_for_final_count() {
    let mut h = Vec::new();
    write_wav_header(&mut h, 8000, 0);
    patch_wav_header(&mut h, 80_000);
    let mut expected = Vec::new();
    write_wav_header(&mut expected, 8000, 80_000);
    assert_eq!(h, expected);
}

#[test]
fn segment_arithmetic() {
    assert_eq!(segment_samples(8000, 10), 80_000);
    assert_eq!(segment_samples(u32::MAX, 2), u32::MAX);
    assert_eq!(segment_take(500, 1000, 0), 500);
    assert_eq!(segment_take(500, 1000, 900), 100);
    assert_eq!(segment_take(500, 1000, 1000), 0);
    assert_eq!(segment_take(500, 1000, 2000), 0);
}
