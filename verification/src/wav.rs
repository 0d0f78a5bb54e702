//! Rolling WAV capture of receiver audio: the 44-byte header of a mono
//! 16-bit PCM file, the size fields patched in when a segment closes, and
//! how many samples go into the current segment.

use vstd::prelude::*;

verus! {

/// Size in bytes of the header that `write_wav_header` writes.
pub const WAV_HEADER_LEN: usize = 44;

/// `x` clamped to the largest `u32`.
pub open spec fn sat_u32(x: int) -> u32 {
    if x > u32::MAX {
        u32::MAX
    } else {
        x as u32
    }
}

/// Little-endian bytes of a 16-bit value.
pub open spec fn le16(v: u16) -> Seq<u8> {
    seq![(v % 0x100) as u8, (v / 0x100) as u8]
}

/// Little-endian bytes of a 32-bit value.
pub open spec fn le32(v: u32) -> Seq<u8> {
    seq![
        (v % 0x100) as u8,
        ((v / 0x100) % 0x100) as u8,
        ((v / 0x1_0000) % 0x100) as u8,
        (v / 0x100_0000) as u8,
    ]
}

/// Bytes in the data chunk for `samples` 16-bit samples (saturating).
pub open spec fn data_bytes(samples: u32) -> u32 {
    sat_u32(samples * 2)
}

/// The RIFF chunk size for `samples` samples (saturating).
pub open spec fn riff_size(samples: u32) -> u32 {
    sat_u32(36 + data_bytes(samples))
}

/// The header of a mono 16-bit PCM WAV file at `rate` samples per second
/// whose size fields count `samples` samples.
pub open spec fn wav_header_bytes(rate: u32, samples: u32) -> Seq<u8> {
    seq![0x52u8, 0x49, 0x46, 0x46] + le32(riff_size(samples)) + seq![0x57u8, 0x41, 0x56, 0x45]
        + seq![0x66u8, 0x6d, 0x74, 0x20] + le32(16) + le16(1) + le16(1) + le32(rate) + le32(
        sat_u32(rate * 2),
    ) + le16(2) + le16(16) + seq![0x64u8, 0x61, 0x74, 0x61] + le32(data_bytes(samples))
}

/// `x * 2`, or the largest `u32` when that overflows.
fn double_saturating(x: u32) -> (r: u32)
    ensures
        r == sat_u32(x * 2),
{
    match x.checked_mul(2) {
        Some(v) => v,
        None => u32::MAX,
    }
}

/// The data-chunk size and RIFF size for `samples` samples.
pub fn wav_sizes(samples: u32) -> (r: (u32, u32))
    ensures
        r.0 == data_bytes(samples),
        r.1 == riff_size(samples),
{
    let data = double_saturating(samples);
    let riff = 36u32.saturating_add(data);
    (data, riff)
}

/// Appends the little-endian bytes of `v`.
fn push_le16(out: &mut Vec<u8>, v: u16)
    ensures
        final(out)@ == old(out)@ + le16(v),
{
    out.push((v % 0x100) as u8);
    out.push((v / 0x100) as u8);
    assert(final(out)@ =~= old(out)@ + le16(v));
}

/// Appends the little-endian bytes of `v`.
fn push_le32(out: &mut Vec<u8>, v: u32)
    ensures
        final(out)@ == old(out)@ + le32(v),
{
    out.push((v % 0x100) as u8);
    out.push(((v / 0x100) % 0x100) as u8);
    out.push(((v / 0x1_0000) % 0x100) as u8);
    out.push((v / 0x100_0000) as u8);
    assert(final(out)@ =~= old(out)@ + le32(v));
}

/// Appends the four bytes `a`, `b`, `c`, `d`.
fn push_tag(out: &mut Vec<u8>, a: u8, b: u8, c: u8, d: u8)
    ensures
        final(out)@ == old(out)@ + seq![a, b, c, d],
{
    out.push(a);
    out.push(b);
    out.push(c);
    out.push(d);
    assert(final(out)@ =~= old(out)@ + seq![a, b, c, d]);
}

/// Writes the header of a mono 16-bit PCM WAV file at `rate` samples per
/// second whose size fields count `placeholder_samples` samples.
pub fn write_wav_header(out: &mut Vec<u8>, rate: u32, placeholder_samples: u32)
    ensures
        final(out)@ == old(out)@ + wav_header_bytes(rate, placeholder_samples),
{
    let (data, riff) = wav_sizes(placeholder_samples);
    let byte_rate = double_saturating(rate);
    push_tag(out, 0x52, 0x49, 0x46, 0x46);
    push_le32(out, riff);
    push_tag(out, 0x57, 0x41, 0x56, 0x45);
    push_tag(out, 0x66, 0x6d, 0x74, 0x20);
    push_le32(out, 16);
    push_le16(out, 1);
    push_le16(out, 1);
    push_le32(out, rate);
    push_le32(out, byte_rate);
    push_le16(out, 2);
    push_le16(out, 16);
    push_tag(out, 0x64, 0x61, 0x74, 0x61);
    push_le32(out, data);
    assert(final(out)@ =~= old(out)@ + wav_header_bytes(rate, placeholder_samples));
}

/// Sets the size fields of a header (bytes 4..8 and 40..44) to count
/// `samples_written` samples; every other byte is kept.
pub fn patch_wav_header(header: &mut [u8], samples_written: u32)
    requires
        old(header)@.len() >= WAV_HEADER_LEN,
    ensures
        final(header)@.len() == old(header)@.len(),
        final(header)@.subrange(4, 8) == le32(riff_size(samples_written)),
        final(header)@.subrange(40, 44) == le32(data_bytes(samples_written)),
        forall|i: int|
            0 <= i < old(header)@.len() && !(4 <= i < 8) && !(40 <= i < 44) ==> final(header)@[i]
                == old(header)@[i],
{
    let (data, riff) = wav_sizes(samples_written);
    header[4] = (riff % 0x100) as u8;
    header[5] = ((riff / 0x100) % 0x100) as u8;
    header[6] = ((riff / 0x1_0000) % 0x100) as u8;
    header[7] = (riff / 0x100_0000) as u8;
    header[40] = (data % 0x100) as u8;
    header[41] = ((data / 0x100) % 0x100) as u8;
    header[42] = ((data / 0x1_0000) % 0x100) as u8;
    header[43] = (data / 0x100_0000) as u8;
    assert(header@.subrange(4, 8) =~= le32(riff_size(samples_written)));
    assert(header@.subrange(40, 44) =~= le32(data_bytes(samples_written)));
}

/// A header written for any placeholder count and then patched for the
/// samples actually written is the header written for that count.
pub proof fn lemma_patched_header(rate: u32, placeholder: u32, samples: u32, patched: Seq<u8>)
    requires
        patched.len() == WAV_HEADER_LEN,
        patched.subrange(4, 8) == le32(riff_size(samples)),
        patched.subrange(40, 44) == le32(data_bytes(samples)),
        forall|i: int|
            0 <= i < WAV_HEADER_LEN && !(4 <= i < 8) && !(40 <= i < 44) ==> patched[i]
                == wav_header_bytes(rate, placeholder)[i],
    ensures
        patched == wav_header_bytes(rate, samples),
{
    let a = wav_header_bytes(rate, placeholder);
    let b = wav_header_bytes(rate, samples);
    assert(a.len() == 44);
    assert(b.len() == 44);
    assert forall|i: int| 0 <= i < 44 implies patched[i] == b[i] by {
        if 4 <= i < 8 {
            assert(patched.subrange(4, 8)[i - 4] == patched[i]);
        } else if 40 <= i < 44 {
            assert(patched.subrange(40, 44)[i - 40] == patched[i]);
        } else {
            assert(a[i] == b[i]);
        }
    }
    assert(patched =~= b);
}

/// Samples in one segment of `segment_sec` seconds (saturating).
pub fn segment_samples(sample_rate: u32, segment_sec: u32) -> (r: u32)
    ensures
        r == sat_u32(sample_rate * segment_sec),
{
    match sample_rate.checked_mul(segment_sec) {
        Some(v) => v,
        None => u32::MAX,
    }
}

/// How many of `remaining` samples still fit in a segment of
/// `segment_samples` samples that already holds `written`.
pub fn segment_take(remaining: usize, segment_samples: u32, written: u32) -> (r: usize)
    ensures
        r as int == (if written >= segment_samples {
            0
        } else if remaining < segment_samples - written {
            remaining as int
        } else {
            segment_samples - written
        }),
{
    let room = segment_samples.saturating_sub(written);
    if (room as u64) < (remaining as u64) {
        room as usize
    } else {
        remaining
    }
}

} // verus!
