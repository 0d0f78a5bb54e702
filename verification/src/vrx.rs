//! Virtual-receiver rules: demodulation mode names, the audio-rate choice
//! with its hysteresis, FFT sizes that keep bin widths matched, the mapping
//! of filter edges to audio bins, and what the runtime decides per batch.

use vstd::prelude::*;

use crate::scan::{chars_of, matches_ignoring_ascii_case, span_is_ignoring_ascii_case};

verus! {

/// Narrowband output rate (Hz): 128-point inverse FFT, 62.5 Hz per bin.
pub const NB_OUTPUT_RATE_HZ: u32 = 8000;

/// Inverse-FFT size at the narrowband rate.
pub const NB_IFFT_N: usize = 128;

/// Wideband output rate (Hz): 256-point inverse FFT, also 62.5 Hz per bin.
pub const WB_OUTPUT_RATE_HZ: u32 = 16000;

/// Inverse-FFT size at the wideband rate.
pub const WB_IFFT_N: usize = 256;

/// Audio bandwidth (Hz) at or above which `Auto` selects wideband.
pub const AUTO_WB_THRESHOLD_HZ: i32 = 4000;

/// How far (Hz) below the threshold `Auto` drops back to narrowband.
pub const AUTO_WB_HYSTERESIS_HZ: i32 = 250;

/// Demodulation mode of a virtual receiver.
#[derive(Clone, Copy, Debug, PartialEq, Eq, Structural)]
pub enum VrxMode {
    Usb,
    Lsb,
    Am,
    Sam,
    Fm,
}

impl VrxMode {
    /// The mode a name gives: `usb`, `lsb`, `am`, `sam` or `fm`, in any
    /// ASCII case; any other text names none.
    pub open spec fn spec_parse(s: Seq<char>) -> Option<VrxMode> {
        if matches_ignoring_ascii_case(s, "usb"@) {
            Some(VrxMode::Usb)
        } else if matches_ignoring_ascii_case(s, "lsb"@) {
            Some(VrxMode::Lsb)
        } else if matches_ignoring_ascii_case(s, "am"@) {
            Some(VrxMode::Am)
        } else if matches_ignoring_ascii_case(s, "sam"@) {
            Some(VrxMode::Sam)
        } else if matches_ignoring_ascii_case(s, "fm"@) {
            Some(VrxMode::Fm)
        } else {
            None
        }
    }

    /// Parses a mode name.
    pub fn parse(s: &str) -> (r: Option<VrxMode>)
        ensures
            r == VrxMode::spec_parse(s@),
    {
        let chars = chars_of(s);
        let n = chars.len();
        assert(chars@.subrange(0, n as int) =~= s@);
        if span_is_ignoring_ascii_case(&chars, 0, n, "usb") {
            Some(VrxMode::Usb)
        } else if span_is_ignoring_ascii_case(&chars, 0, n, "lsb") {
            Some(VrxMode::Lsb)
        } else if span_is_ignoring_ascii_case(&chars, 0, n, "am") {
            Some(VrxMode::Am)
        } else if span_is_ignoring_ascii_case(&chars, 0, n, "sam") {
            Some(VrxMode::Sam)
        } else if span_is_ignoring_ascii_case(&chars, 0, n, "fm") {
            Some(VrxMode::Fm)
        } else {
            None
        }
    }
}

/// Audio-rate selection of the virtual receivers.
#[derive(Clone, Copy, Debug, PartialEq, Eq, Structural)]
pub enum VrxRateMode {
    /// Always narrowband.
    Nb,
    /// Always wideband.
    Wb,
    /// Wideband when the filter needs it, narrowband otherwise.
    Auto,
}

impl VrxRateMode {
    /// The rate mode a setting byte stands for: 1 wideband, 2 automatic,
    /// anything else narrowband.
    pub open spec fn spec_from_u8(v: u8) -> VrxRateMode {
        if v == 1 {
            VrxRateMode::Wb
        } else if v == 2 {
            VrxRateMode::Auto
        } else {
            VrxRateMode::Nb
        }
    }

    /// Decodes a setting byte.
    pub fn from_u8(v: u8) -> (r: VrxRateMode)
        ensures
            r == VrxRateMode::spec_from_u8(v),
    {
        match v {
            1 => VrxRateMode::Wb,
            2 => VrxRateMode::Auto,
            _ => VrxRateMode::Nb,
        }
    }
}

/// The magnitude of `x`.
pub open spec fn abs(x: int) -> int {
    if x < 0 {
        -x
    } else {
        x
    }
}

/// The audio bandwidth a filter needs: its larger edge magnitude.
pub open spec fn filter_bandwidth(low_hz: int, high_hz: int) -> int {
    if abs(low_hz) >= abs(high_hz) {
        abs(low_hz)
    } else {
        abs(high_hz)
    }
}

/// Whether the receiver should run wideband: always or never in the fixed
/// modes; in `Auto`, from the threshold up when narrowband now, and from
/// the hysteresis below it up when wideband now.
pub open spec fn spec_wants_wideband(mode: VrxRateMode, low_hz: int, high_hz: int, current_wb: bool) -> bool {
    match mode {
        VrxRateMode::Nb => false,
        VrxRateMode::Wb => true,
        VrxRateMode::Auto => {
            let bw = filter_bandwidth(low_hz, high_hz);
            if current_wb {
                bw >= AUTO_WB_THRESHOLD_HZ - AUTO_WB_HYSTERESIS_HZ
            } else {
                bw >= AUTO_WB_THRESHOLD_HZ
            }
        },
    }
}

/// Whether this rate mode and filter want wideband, given the current rate.
pub fn rate_mode_wants_wideband(
    mode: VrxRateMode,
    filter_low_hz: i32,
    filter_high_hz: i32,
    current_wb: bool,
) -> (r: bool)
    requires
        mode == VrxRateMode::Auto ==> filter_low_hz != i32::MIN && filter_high_hz != i32::MIN,
    ensures
        r == spec_wants_wideband(mode, filter_low_hz as int, filter_high_hz as int, current_wb),
{
    match mode {
        VrxRateMode::Nb => false,
        VrxRateMode::Wb => true,
        VrxRateMode::Auto => {
            let lo = if filter_low_hz < 0 {
                -filter_low_hz
            } else {
                filter_low_hz
            };
            let hi = if filter_high_hz < 0 {
                -filter_high_hz
            } else {
                filter_high_hz
            };
            let bw = if lo >= hi {
                lo
            } else {
                hi
            };
            if current_wb {
                bw >= AUTO_WB_THRESHOLD_HZ - AUTO_WB_HYSTERESIS_HZ
            } else {
                bw >= AUTO_WB_THRESHOLD_HZ
            }
        },
    }
}

/// The hysteresis of `Auto`: a filter at or above the threshold always
/// wants wideband, one below the hysteresis band never does, one inside the
/// band keeps the current rate; and feeding the answer back as the current
/// rate gives the same answer again, so the choice never flips on its own.
pub proof fn lemma_auto_rate_hysteresis(low_hz: int, high_hz: int, current_wb: bool)
    ensures
        filter_bandwidth(low_hz, high_hz) >= AUTO_WB_THRESHOLD_HZ ==> spec_wants_wideband(
            VrxRateMode::Auto,
            low_hz,
            high_hz,
            current_wb,
        ),
        filter_bandwidth(low_hz, high_hz) < AUTO_WB_THRESHOLD_HZ - AUTO_WB_HYSTERESIS_HZ
            ==> !spec_wants_wideband(VrxRateMode::Auto, low_hz, high_hz, current_wb),
        AUTO_WB_THRESHOLD_HZ - AUTO_WB_HYSTERESIS_HZ <= filter_bandwidth(low_hz, high_hz)
            < AUTO_WB_THRESHOLD_HZ ==> spec_wants_wideband(
            VrxRateMode::Auto,
            low_hz,
            high_hz,
            current_wb,
        ) == current_wb,
        ({
            let next = spec_wants_wideband(VrxRateMode::Auto, low_hz, high_hz, current_wb);
            spec_wants_wideband(VrxRateMode::Auto, low_hz, high_hz, next) == next
        }),
{
}

/// The inverse-FFT size for an output rate: 256 at the wideband rate, 128
/// at any other.
pub open spec fn spec_ifft_n(output_rate_hz: u32) -> nat {
    if output_rate_hz == WB_OUTPUT_RATE_HZ {
        WB_IFFT_N as nat
    } else {
        NB_IFFT_N as nat
    }
}

/// Maps an output rate to its inverse-FFT size.
pub fn ifft_n_for_output_rate(output_rate_hz: u32) -> (r: usize)
    ensures
        r == spec_ifft_n(output_rate_hz),
{
    if output_rate_hz == WB_OUTPUT_RATE_HZ {
        WB_IFFT_N
    } else {
        NB_IFFT_N
    }
}

/// The decimation from input to output rate: their integer ratio, at
/// least 1.
pub open spec fn decimation(input_rate_hz: u32, output_rate_hz: u32) -> nat {
    let m = input_rate_hz as nat / output_rate_hz as nat;
    if m >= 1 {
        m
    } else {
        1
    }
}

/// The forward-FFT size for an input and output rate: the inverse-FFT size
/// times the decimation, so both transforms have the same bin width.
pub open spec fn spec_fft_n(input_rate_hz: u32, output_rate_hz: u32) -> nat {
    spec_ifft_n(output_rate_hz) * decimation(input_rate_hz, output_rate_hz)
}

/// The forward-FFT size for the given rates.
pub fn fft_n_for_rates(input_rate_hz: u32, output_rate_hz: u32) -> (r: usize)
    requires
        output_rate_hz > 0,
        spec_fft_n(input_rate_hz, output_rate_hz) < usize::MAX,
    ensures
        r == spec_fft_n(input_rate_hz, output_rate_hz),
        r % 2 == 0,
        r > 0,
{
    let ifft_n = ifft_n_for_output_rate(output_rate_hz);
    let q = input_rate_hz / output_rate_hz;
    let m: usize = if q >= 1 {
        q as usize
    } else {
        1
    };
    assert(ifft_n * m == spec_fft_n(input_rate_hz, output_rate_hz));
    let n = ifft_n * m;
    assert(n % 2 == 0) by (nonlinear_arith)
        requires
            n == ifft_n * m,
            ifft_n == 128 || ifft_n == 256,
    ;
    assert(n > 0) by (nonlinear_arith)
        requires
            n == ifft_n * m,
            ifft_n == 128 || ifft_n == 256,
            m >= 1,
    ;
    if n % 2 == 0 {
        n
    } else {
        n + 1
    }
}

/// The forward-FFT size for the given input rate at the narrowband output
/// rate.
pub fn fft_n_for_rate(input_rate_hz: u32) -> (r: usize)
    requires
        spec_fft_n(input_rate_hz, NB_OUTPUT_RATE_HZ) < usize::MAX,
    ensures
        r == spec_fft_n(input_rate_hz, NB_OUTPUT_RATE_HZ),
{
    fft_n_for_rates(input_rate_hz, NB_OUTPUT_RATE_HZ)
}

/// `x` divided by 62.5 and rounded to the nearest integer (the quotient is
/// never halfway between two integers).
pub open spec fn bins_of(x: int) -> int {
    (4 * x + 125) / 250
}

/// The audio-bin span `(lo, hi)` of a filter given by signed edges in Hz,
/// 62.5 Hz per bin: for USB the edges above the carrier, for LSB the edges
/// below it mirrored, for the AM family from the carrier to the larger edge
/// magnitude; ordered so that `lo <= hi`.
pub open spec fn spec_audio_bins(low_hz: int, high_hz: int, mode: VrxMode) -> (int, int) {
    let (near, far) = match mode {
        VrxMode::Usb => (if low_hz > 0 { low_hz } else { 0 }, if high_hz > 0 { high_hz } else { 0 }),
        VrxMode::Lsb => (if -high_hz > 0 { -high_hz } else { 0 }, if -low_hz > 0 { -low_hz } else { 0 }),
        _ => (0, filter_bandwidth(low_hz, high_hz)),
    };
    let lo = bins_of(near);
    let hi = bins_of(far);
    if lo <= hi {
        (lo, hi)
    } else {
        (hi, lo)
    }
}

/// How the modes' filters relate: every mode of the AM family (AM, SAM,
/// FM) maps a filter the same way, as the upper-sideband span from the
/// carrier up to the larger edge magnitude, so a symmetric `-x..x` filter
/// passes `x` Hz of audio, not `2x`; the lower sideband is the upper one
/// mirrored about the carrier; and the span starts at the carrier for the
/// AM family.
pub proof fn lemma_audio_bins_by_mode(low_hz: int, high_hz: int)
    ensures
        spec_audio_bins(low_hz, high_hz, VrxMode::Sam) == spec_audio_bins(low_hz, high_hz, VrxMode::Am),
        spec_audio_bins(low_hz, high_hz, VrxMode::Fm) == spec_audio_bins(low_hz, high_hz, VrxMode::Am),
        spec_audio_bins(low_hz, high_hz, VrxMode::Am) == spec_audio_bins(
            0,
            if abs(low_hz) >= abs(high_hz) { abs(low_hz) } else { abs(high_hz) },
            VrxMode::Usb,
        ),
        spec_audio_bins(low_hz, high_hz, VrxMode::Lsb) == spec_audio_bins(-high_hz, -low_hz, VrxMode::Usb),
        spec_audio_bins(low_hz, high_hz, VrxMode::Am).0 == 0,
        spec_audio_bins(-high_hz, high_hz, VrxMode::Sam) == spec_audio_bins(0, abs(high_hz), VrxMode::Usb),
{
    assert(bins_of(0) == 0);
    let m = if abs(low_hz) >= abs(high_hz) { abs(low_hz) } else { abs(high_hz) };
    assert(bins_of(m) >= 0) by (nonlinear_arith)
        requires
            m >= 0,
    ;
    assert(bins_of(abs(high_hz)) >= 0) by (nonlinear_arith)
        requires
            abs(high_hz) >= 0,
    ;
}

/// Converts signed filter edges (Hz) to the non-negative audio-bin offsets
/// from the carrier that the channelizer takes.
pub fn filter_to_audio_bins(low_hz: i32, high_hz: i32, mode: VrxMode) -> (r: (usize, usize))
    requires
        mode != VrxMode::Usb ==> low_hz != i32::MIN && high_hz != i32::MIN,
    ensures
        (r.0 as int, r.1 as int) == spec_audio_bins(low_hz as int, high_hz as int, mode),
{
    let (near, far): (i64, i64) = match mode {
        VrxMode::Usb => (
            if low_hz > 0 { low_hz as i64 } else { 0 },
            if high_hz > 0 { high_hz as i64 } else { 0 },
        ),
        VrxMode::Lsb => (
            if -high_hz > 0 { -high_hz as i64 } else { 0 },
            if -low_hz > 0 { -low_hz as i64 } else { 0 },
        ),
        _ => {
            let lo = if low_hz < 0 { -(low_hz as i64) } else { low_hz as i64 };
            let hi = if high_hz < 0 { -(high_hz as i64) } else { high_hz as i64 };
            (0, if lo >= hi { lo } else { hi })
        },
    };
    let lo = ((4 * near + 125) / 250) as usize;
    let hi = ((4 * far + 125) / 250) as usize;
    if lo <= hi {
        (lo, hi)
    } else {
        (hi, lo)
    }
}

/// Options of one virtual-receiver runtime.
pub struct VrxRuntimeOptions {
    /// Which virtual receiver this is (0 the first), passed to the sink.
    pub vrx_id: u8,
    /// Directory for rolling WAV captures, if any.
    pub wav_dir: Option<String>,
    /// Length (s) of a WAV segment.
    pub wav_segment_sec: u32,
    /// Wideband (16 kHz) rather than narrowband (8 kHz) output.
    pub wideband: bool,
}

impl Default for VrxRuntimeOptions {
    fn default() -> (r: VrxRuntimeOptions)
        ensures
            r.vrx_id == 0,
            r.wav_dir is None,
            r.wav_segment_sec == 10,
            !r.wideband,
    {
        VrxRuntimeOptions { vrx_id: 0, wav_dir: None, wav_segment_sec: 10, wideband: false }
    }
}

/// The output rate of a runtime: wideband or narrowband.
pub fn output_rate_hz_for(wideband: bool) -> (r: u32)
    ensures
        r == (if wideband {
            WB_OUTPUT_RATE_HZ
        } else {
            NB_OUTPUT_RATE_HZ
        }),
{
    if wideband {
        WB_OUTPUT_RATE_HZ
    } else {
        NB_OUTPUT_RATE_HZ
    }
}

/// The frequency the receiver listens on: the target when one is set (not
/// zero), the radio's VFO otherwise.
pub open spec fn spec_listen_hz(target_freq_hz: u64, vfo_hz: u64) -> u64 {
    if target_freq_hz == 0 {
        vfo_hz
    } else {
        target_freq_hz
    }
}

/// The carrier offset (Hz) from the DDC center to the frequency listened
/// on; negative below the center.
pub fn listen_offset_hz(target_freq_hz: u64, vfo_hz: u64, ddc_center_hz: u64) -> (r: i128)
    ensures
        r == spec_listen_hz(target_freq_hz, vfo_hz) as int - ddc_center_hz as int,
{
    let listen = if target_freq_hz == 0 {
        vfo_hz
    } else {
        target_freq_hz
    };
    listen as i128 - ddc_center_hz as i128
}

/// Whether the channelizer must be built anew: when there is none yet,
/// when the mode changed, or when the input rate changed (the FFT size
/// depends on it). `current` is the mode and input rate of the one there is.
pub fn needs_rebuild(current: Option<(VrxMode, u32)>, mode: VrxMode, input_rate_hz: u32) -> (r: bool)
    ensures
        r == match current {
            None => true,
            Some((m, rate)) => m != mode || rate != input_rate_hz,
        },
{
    match current {
        None => true,
        Some((m, rate)) => m != mode || rate != input_rate_hz,
    }
}

/// The encoding state of a virtual receiver's runtime between feeds: how
/// many audio samples wait for a whole frame, and the number of the next
/// frame sent.
#[derive(Clone, Copy, Debug, PartialEq, Eq)]
pub struct FeedState {
    pub buffered: usize,
    pub sequence: u32,
}

/// Whether a feed runs the receiver at all. A disabled receiver empties
/// its waiting samples (so a stop and start does not join half frames)
/// and does nothing else; an input rate of 0 does nothing.
pub fn feed_gate(s: FeedState, enabled: bool, iq_rate_hz: u32) -> (r: (FeedState, bool))
    ensures
        r == (if !enabled {
            (FeedState { buffered: 0, ..s }, false)
        } else if iq_rate_hz == 0 {
            (s, false)
        } else {
            (s, true)
        }),
{
    if !enabled {
        (FeedState { buffered: 0, ..s }, false)
    } else if iq_rate_hz == 0 {
        (s, false)
    } else {
        (s, true)
    }
}

/// Takes `audio_len` new samples into the waiting ones and says how many
/// whole frames of `frame_samples` are encoded now, taken from the front
/// in turn; the rest keep waiting. No audio, or no encoder to take it,
/// changes nothing.
pub fn feed_audio(s: FeedState, audio_len: usize, frame_samples: usize, encoder_ready: bool) -> (r: (
    FeedState,
    usize,
))
    requires
        frame_samples > 0,
        s.buffered + audio_len <= usize::MAX,
    ensures
        r == (if audio_len == 0 || !encoder_ready {
            (s, 0usize)
        } else {
            (
                FeedState { buffered: ((s.buffered + audio_len) % frame_samples as int) as usize, ..s },
                ((s.buffered + audio_len) / frame_samples as int) as usize,
            )
        }),
{
    if audio_len == 0 || !encoder_ready {
        (s, 0)
    } else {
        let n = s.buffered + audio_len;
        (FeedState { buffered: n % frame_samples, ..s }, n / frame_samples)
    }
}

/// After a frame was encoded and handed on: the next frame's number,
/// wrapping. A frame that failed to encode leaves the number as it was.
pub fn feed_frame_sent(s: FeedState) -> (r: FeedState)
    ensures
        r == (FeedState { sequence: ((s.sequence + 1) % 0x1_0000_0000) as u32, ..s }),
        r == frames_sent(s, 1),
{
    proof {
        reveal_with_fuel(frames_sent, 2);
    }
    FeedState { sequence: s.sequence.wrapping_add(1), ..s }
}

/// The filter's audio-bin span as the channelizer uses it: both edges cut
/// to half the inverse-FFT size, and the upper edge no lower than the
/// lower one.
pub open spec fn clamped_span(lo: nat, hi: nat, ifft_n: nat) -> (nat, nat) {
    let half = ifft_n / 2;
    let l = if lo < half {
        lo
    } else {
        half
    };
    let h0 = if hi < half {
        hi
    } else {
        half
    };
    (l, if h0 < l {
        l
    } else {
        h0
    })
}

/// The FFT bin `k` bins above (or, for negative `k`, below) the carrier
/// bin, wrapping around the `fft_n` bins.
pub open spec fn bin_at(carrier_bin: int, k: int, fft_n: nat) -> usize {
    ((carrier_bin + k) % (fft_n as int)) as usize
}

/// The copies from forward-FFT bins into inverse-FFT slots that select a
/// channel, as (slot, bin) pairs in the order they are made. Upper
/// sideband: bins `lo..hi` above the carrier into slots `lo..hi`. Lower
/// sideband: bins `lo+1..=hi` below the carrier into the slots as far from
/// the top. Both sidebands (AM, SAM, FM): the carrier into slot 0 when the
/// span starts at 0, then for each distance from `max(lo, 1)` to `hi` the
/// bin above into that slot and the bin below into the slot as far from
/// the top.
pub open spec fn bin_copies(mode: VrxMode, carrier_bin: int, fft_n: nat, ifft_n: nat, lo: nat, hi: nat) -> Seq<
    (usize, usize),
> {
    let (l, h) = clamped_span(lo, hi, ifft_n);
    match mode {
        VrxMode::Usb => Seq::new((h - l) as nat, |j: int| ((l + j) as usize, bin_at(carrier_bin, l + j, fft_n))),
        VrxMode::Lsb => Seq::new(
            (h - l) as nat,
            |j: int| ((ifft_n - (l + 1 + j)) as usize, bin_at(carrier_bin, -(l + 1 + j), fft_n)),
        ),
        _ => {
            let start: int = if l < 1 {
                1
            } else {
                l as int
            };
            let count: nat = if h >= start {
                (h - start + 1) as nat
            } else {
                0
            };
            let head = if l == 0 {
                seq![(0usize, bin_at(carrier_bin, 0, fft_n))]
            } else {
                Seq::empty()
            };
            head + Seq::new(
                2 * count,
                |t: int|
                    if t % 2 == 0 {
                        ((start + t / 2) as usize, bin_at(carrier_bin, start + t / 2, fft_n))
                    } else {
                        ((ifft_n - (start + t / 2)) as usize, bin_at(carrier_bin, -(start + t / 2), fft_n))
                    },
            )
        },
    }
}

/// `(carrier_bin + k)` wrapped onto the `fft_n` bins.
fn wrap_bin(carrier_bin: i32, k: i32, fft_n: usize) -> (r: usize)
    requires
        0 < fft_n <= i32::MAX,
        i32::MIN <= carrier_bin + k <= i32::MAX,
    ensures
        r == bin_at(carrier_bin as int, k as int, fft_n as nat),
        r < fft_n,
{
    let x: i64 = carrier_bin as i64 + k as i64;
    let n: u64 = fft_n as u64;
    if x >= 0 {
        let r: u64 = (x as u64) % n;
        r as usize
    } else {
        let a: u64 = (-x) as u64;
        let y: u64 = a % n;
        proof {
            let ai = a as int;
            let ni = n as int;
            vstd::arithmetic::div_mod::lemma_fundamental_div_mod(ai, ni);
            let q = ai / ni;
            let r = ai % ni;
            if r == 0 {
                assert((-q) * ni + 0 == -ai) by (nonlinear_arith)
                    requires
                        ai == ni * q + r,
                        r == 0,
                ;
                vstd::arithmetic::div_mod::lemma_fundamental_div_mod_converse_mod(-ai, ni, -q, 0);
            } else {
                assert((-q - 1) * ni + (ni - r) == -ai) by (nonlinear_arith)
                    requires
                        ai == ni * q + r,
                ;
                vstd::arithmetic::div_mod::lemma_fundamental_div_mod_converse_mod(-ai, ni, -q - 1, ni - r);
            }
        }
        if y == 0 {
            0
        } else {
            (n - y) as usize
        }
    }
}

/// The copies of both sidebands at distance `k` from the carrier.
proof fn lemma_sideband_pair(mode: VrxMode, c: int, fft_n: nat, ifft_n: nat, lo: nat, hi: nat, k: int)
    requires
        mode != VrxMode::Usb && mode != VrxMode::Lsb,
        ({
            let (l, h) = clamped_span(lo, hi, ifft_n);
            let start: int = if l < 1 { 1 } else { l as int };
            start <= k <= h
        }),
    ensures
        ({
            let (l, h) = clamped_span(lo, hi, ifft_n);
            let start: int = if l < 1 { 1 } else { l as int };
            let hl: int = if l == 0 { 1 } else { 0 };
            let t = bin_copies(mode, c, fft_n, ifft_n, lo, hi);
            let j = hl + 2 * (k - start);
            &&& t.len() == hl + 2 * (h - start + 1)
            &&& t[j] == ((k as usize), bin_at(c, k, fft_n))
            &&& t[j + 1] == (((ifft_n - k) as usize), bin_at(c, -k, fft_n))
        }),
{
    let (l, h) = clamped_span(lo, hi, ifft_n);
    let start: int = if l < 1 { 1 } else { l as int };
    let hl: int = if l == 0 { 1 } else { 0 };
    let t = bin_copies(mode, c, fft_n, ifft_n, lo, hi);
    let j = hl + 2 * (k - start);
    let count: nat = (h - start + 1) as nat;
    let head: Seq<(usize, usize)> = if l == 0 {
        seq![(0usize, bin_at(c, 0, fft_n))]
    } else {
        Seq::empty()
    };
    let body = Seq::new(
        2 * count,
        |u: int|
            if u % 2 == 0 {
                ((start + u / 2) as usize, bin_at(c, start + u / 2, fft_n))
            } else {
                ((ifft_n - (start + u / 2)) as usize, bin_at(c, -(start + u / 2), fft_n))
            },
    );
    assert(t == head + body);
    let u = 2 * (k - start);
    assert(u % 2 == 0 && u / 2 == k - start);
    assert((u + 1) % 2 == 1 && (u + 1) / 2 == k - start);
    assert(t[j] == body[u]);
    assert(t[j + 1] == body[u + 1]);
}

/// Lists the copies from forward-FFT bins into inverse-FFT slots that
/// select the channel: see `bin_copies`. `carrier_bin` is the carrier's
/// offset in forward-FFT bins, rounded.
#[verifier::rlimit(50)]
pub fn channel_bin_copies(
    mode: VrxMode,
    carrier_bin: i32,
    fft_n: usize,
    ifft_n: usize,
    lo: usize,
    hi: usize,
) -> (r: Vec<(usize, usize)>)
    requires
        0 < fft_n <= i32::MAX,
        ifft_n <= i32::MAX,
        i32::MIN + ifft_n / 2 <= carrier_bin <= i32::MAX - ifft_n / 2,
    ensures
        r@ == bin_copies(mode, carrier_bin as int, fft_n as nat, ifft_n as nat, lo as nat, hi as nat),
{
    let half = ifft_n / 2;
    let l: usize = if lo < half {
        lo
    } else {
        half
    };
    let h0: usize = if hi < half {
        hi
    } else {
        half
    };
    let h: usize = if h0 < l {
        l
    } else {
        h0
    };
    let ghost target = bin_copies(mode, carrier_bin as int, fft_n as nat, ifft_n as nat, lo as nat, hi as nat);
    let mut out: Vec<(usize, usize)> = Vec::new();
    match mode {
        VrxMode::Usb => {
            let mut i: usize = l;
            while i < h
                invariant
                    l <= i <= h <= half,
                    half == ifft_n / 2,
                    (l as nat, h as nat) == clamped_span(lo as nat, hi as nat, ifft_n as nat),
                    0 < fft_n <= i32::MAX,
                    ifft_n <= i32::MAX,
                    i32::MIN + ifft_n / 2 <= carrier_bin <= i32::MAX - ifft_n / 2,
                    target == bin_copies(mode, carrier_bin as int, fft_n as nat, ifft_n as nat, lo as nat, hi as nat),
                    mode == VrxMode::Usb,
                    out@ == target.take((i - l) as int),
                decreases h - i,
            {
                let b = wrap_bin(carrier_bin, i as i32, fft_n);
                out.push((i, b));
                assert(target.take((i + 1 - l) as int) =~= target.take((i - l) as int).push(target[(i - l) as int]));
                i = i + 1;
            }
            assert(target.take((h - l) as int) =~= target);
        },
        VrxMode::Lsb => {
            let mut k: usize = l + 1;
            while k <= h
                invariant
                    l + 1 <= k <= h + 1,
                    h <= half,
                    half == ifft_n / 2,
                    (l as nat, h as nat) == clamped_span(lo as nat, hi as nat, ifft_n as nat),
                    0 < fft_n <= i32::MAX,
                    ifft_n <= i32::MAX,
                    i32::MIN + ifft_n / 2 <= carrier_bin <= i32::MAX - ifft_n / 2,
                    target == bin_copies(mode, carrier_bin as int, fft_n as nat, ifft_n as nat, lo as nat, hi as nat),
                    mode == VrxMode::Lsb,
                    out@ == target.take((k - l - 1) as int),
                decreases h + 1 - k,
            {
                let b = wrap_bin(carrier_bin, -(k as i32), fft_n);
                out.push((ifft_n - k, b));
                assert(target.take((k - l) as int) =~= target.take((k - l - 1) as int).push(target[(k - l - 1) as int]));
                k = k + 1;
            }
            assert(target.take((h - l) as int) =~= target);
        },
        _ => {
            let ghost head: Seq<(usize, usize)> = if l == 0 {
                seq![(0usize, bin_at(carrier_bin as int, 0, fft_n as nat))]
            } else {
                Seq::empty()
            };
            if l == 0 {
                let b = wrap_bin(carrier_bin, 0, fft_n);
                out.push((0, b));
            }
            assert(out@ =~= head);
            let start: usize = if l < 1 {
                1
            } else {
                l
            };
            let mut k: usize = start;
            while k <= h
                invariant
                    start <= k,
                    k <= h + 1 || k == start,
                    start >= 1,
                    start == (if l < 1 { 1 } else { l }),
                    h <= half,
                    half == ifft_n / 2,
                    (l as nat, h as nat) == clamped_span(lo as nat, hi as nat, ifft_n as nat),
                    0 < fft_n <= i32::MAX,
                    ifft_n <= i32::MAX,
                    i32::MIN + ifft_n / 2 <= carrier_bin <= i32::MAX - ifft_n / 2,
                    target == bin_copies(mode, carrier_bin as int, fft_n as nat, ifft_n as nat, lo as nat, hi as nat),
                    mode != VrxMode::Usb && mode != VrxMode::Lsb,
                    head == (if l == 0 {
                        seq![(0usize, bin_at(carrier_bin as int, 0, fft_n as nat))]
                    } else {
                        Seq::<(usize, usize)>::empty()
                    }),
                    out@ == target.take(head.len() + 2 * (k - start)),
                decreases h + 1 - k,
            {
                let up = wrap_bin(carrier_bin, k as i32, fft_n);
                let dn = wrap_bin(carrier_bin, -(k as i32), fft_n);
                let ghost before = out@;
                out.push((k, up));
                out.push((ifft_n - k, dn));
                let ghost j = head.len() + 2 * (k - start);
                proof {
                    lemma_sideband_pair(mode, carrier_bin as int, fft_n as nat, ifft_n as nat, lo as nat, hi as nat, k as int);
                }
                assert(target.take(j + 2) =~= target.take(j).push(target[j]).push(target[j + 1]));
                k = k + 1;
            }
            if h >= start {
                proof {
                    lemma_sideband_pair(mode, carrier_bin as int, fft_n as nat, ifft_n as nat, lo as nat, hi as nat, start as int);
                }
            }
            assert(head.len() + 2 * (k - start) == target.len());
            assert(target.take(target.len() as int) =~= target);
        },
    }
    out
}

/// The encoding state after `k` more frames were sent.
pub open spec fn frames_sent(s: FeedState, k: nat) -> FeedState
    decreases k,
{
    if k == 0 {
        s
    } else {
        let p = frames_sent(s, (k - 1) as nat);
        FeedState { sequence: ((p.sequence + 1) % 0x1_0000_0000) as u32, ..p }
    }
}

/// Frames are numbered without gaps or repeats: after `k` frames sent, the
/// next number is `k` past the first, wrapping; the waiting samples are
/// untouched by the numbering.
pub proof fn lemma_frames_numbered(s: FeedState, k: nat)
    ensures
        frames_sent(s, k).sequence == (s.sequence + k) % 0x1_0000_0000,
        frames_sent(s, k).buffered == s.buffered,
    decreases k,
{
    if k > 0 {
        lemma_frames_numbered(s, (k - 1) as nat);
        vstd::arithmetic::div_mod::lemma_add_mod_noop((s.sequence + k - 1) as int, 1, 0x1_0000_0000);
        assert(1int % 0x1_0000_0000 == 1);
        assert(((s.sequence + k - 1) % 0x1_0000_0000) % 0x1_0000_0000 == (s.sequence + k - 1) % 0x1_0000_0000) by {
            vstd::arithmetic::div_mod::lemma_mod_twice((s.sequence + k - 1) as int, 0x1_0000_0000);
        }
    }
}

} // verus!
