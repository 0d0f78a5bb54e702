//! Bookkeeping of the server's audio and IQ loops: how many buffered
//! samples each tick drops, encodes and keeps, and the transmit state of
//! the Yaesu audio loop. The host runs the loops, holds the samples and
//! does the encoding; these functions decide what happens to the buffers.

use vstd::prelude::*;

verus! {

/// Samples in 20 ms of audio at `rate` Hz.
pub open spec fn frame_len(rate: u32) -> nat {
    (rate * 20 / 1000) as nat
}

/// Samples in 20 ms of audio at `rate` Hz.
pub fn frame_samples_for_rate(rate: u32) -> (r: usize)
    requires
        rate * 20 <= u32::MAX,
    ensures
        r == frame_len(rate),
{
    (rate * 20 / 1000) as usize
}

/// What one sample buffer does in a tick: first `skip` samples are dropped
/// from its front, then (when `frame`) one frame is taken for encoding,
/// then only the last `keep` samples are kept.
#[derive(Clone, Copy, Debug, PartialEq, Eq)]
pub struct BufferStep {
    pub skip: usize,
    pub frame: bool,
    pub keep: usize,
}

/// What a tick of the multi-channel audio bundler does.
#[derive(Clone, Copy, Debug, PartialEq, Eq)]
pub enum BundlerTick {
    /// Less than a frame of RX1 audio: keep collecting.
    Wait,
    /// No client is listening: nothing is sent.
    NoClients,
    /// Frames are taken and encoded for the listening clients.
    Encode,
}

/// The bundler's plan for one tick: its action, the steps of the RX1, RX2
/// and binaural-right buffers, and whether it counts clients as connected
/// afterwards.
#[derive(Clone, Copy, Debug, PartialEq, Eq)]
pub struct BundlerPlan {
    pub action: BundlerTick,
    pub rx1: BufferStep,
    pub rx2: BufferStep,
    pub bin_r: BufferStep,
    pub had_clients: bool,
}

/// The most samples a buffer holds between ticks: ten frames.
pub open spec fn buffer_cap(frame: nat) -> nat {
    10 * frame
}

/// A buffer of `n` samples cut to its last ten frames.
pub open spec fn capped(n: nat, frame: nat) -> nat {
    if n > buffer_cap(frame) {
        buffer_cap(frame)
    } else {
        n
    }
}

/// A capped buffer when clients (re)connect: cut to its last frame.
pub open spec fn aligned(n: nat, frame: nat, had_clients: bool) -> nat {
    if !had_clients && n > frame {
        frame
    } else {
        n
    }
}

/// A buffer that is only capped.
pub open spec fn cap_step(n: nat, frame: nat) -> BufferStep {
    BufferStep { skip: (n - capped(n, frame)) as usize, frame: false, keep: capped(n, frame) as usize }
}

/// The RX1 buffer when frames are encoded: capped, aligned, one frame
/// taken, the rest kept.
pub open spec fn lead_step(n: nat, frame: nat, had_clients: bool) -> BufferStep {
    let a = aligned(capped(n, frame), frame, had_clients);
    BufferStep { skip: (n - a) as usize, frame: true, keep: (a - frame) as usize }
}

/// An RX2 or binaural-right buffer when frames are encoded: capped,
/// aligned, a frame taken when it holds one, and at most one frame kept.
pub open spec fn side_step(n: nat, frame: nat, had_clients: bool) -> BufferStep {
    let a = aligned(capped(n, frame), frame, had_clients);
    let rest: nat = if a >= frame {
        (a - frame) as nat
    } else {
        a
    };
    BufferStep {
        skip: (n - a) as usize,
        frame: a >= frame,
        keep: (if rest > frame {
            frame
        } else {
            rest
        }) as usize,
    }
}

/// The bundler's tick, given whether clients were connected at the last
/// tick, whether any is connected now and the buffered sample counts.
pub open spec fn bundler_plan(
    frame: nat,
    had_clients: bool,
    has_clients: bool,
    rx1: nat,
    rx2: nat,
    bin_r: nat,
) -> BundlerPlan {
    if capped(rx1, frame) < frame {
        BundlerPlan {
            action: BundlerTick::Wait,
            rx1: cap_step(rx1, frame),
            rx2: cap_step(rx2, frame),
            bin_r: cap_step(bin_r, frame),
            had_clients,
        }
    } else if !has_clients {
        BundlerPlan {
            action: BundlerTick::NoClients,
            rx1: cap_step(rx1, frame),
            rx2: cap_step(rx2, frame),
            bin_r: cap_step(bin_r, frame),
            had_clients: false,
        }
    } else {
        BundlerPlan {
            action: BundlerTick::Encode,
            rx1: lead_step(rx1, frame, had_clients),
            rx2: side_step(rx2, frame, had_clients),
            bin_r: side_step(bin_r, frame, had_clients),
            had_clients: true,
        }
    }
}

/// The samples a buffer holds after its step.
pub open spec fn after_step(s: BufferStep) -> nat {
    s.keep as nat
}

/// A step that a buffer of `n` samples can take: it drops, takes and keeps
/// no more than it holds.
pub open spec fn step_fits(s: BufferStep, n: nat, frame: nat) -> bool {
    s.skip + (if s.frame {
        frame
    } else {
        0
    }) + s.keep <= n
}

fn cap_step_exec(n: usize, frame: usize) -> (r: BufferStep)
    requires
        frame * 10 <= usize::MAX,
    ensures
        r == cap_step(n as nat, frame as nat),
{
    let cap: usize = frame * 10;
    let c: usize = if n > cap {
        cap
    } else {
        n
    };
    BufferStep { skip: n - c, frame: false, keep: c }
}

fn aligned_exec(n: usize, frame: usize, had_clients: bool) -> (r: usize)
    requires
        frame * 10 <= usize::MAX,
    ensures
        r == aligned(capped(n as nat, frame as nat), frame as nat, had_clients),
{
    let cap: usize = frame * 10;
    let c: usize = if n > cap {
        cap
    } else {
        n
    };
    if !had_clients && c > frame {
        frame
    } else {
        c
    }
}

fn side_step_exec(n: usize, frame: usize, had_clients: bool) -> (r: BufferStep)
    requires
        frame * 10 <= usize::MAX,
    ensures
        r == side_step(n as nat, frame as nat, had_clients),
{
    let a = aligned_exec(n, frame, had_clients);
    let take = a >= frame;
    let rest: usize = if take {
        a - frame
    } else {
        a
    };
    let keep: usize = if rest > frame {
        frame
    } else {
        rest
    };
    BufferStep { skip: n - a, frame: take, keep }
}

/// Plans one tick of the multi-channel audio bundler. RX1 sets the pace:
/// without a frame of it nothing is encoded. With no client connected
/// nothing is sent and the next client counts as new. When a client
/// (re)connects, each buffer is first cut to its last frame so that the
/// channels start together. Every buffer is first cut to its last ten
/// frames, and RX2 and binaural-right keep at most one frame after an
/// encoding tick.
pub fn plan_bundler_tick(
    frame: usize,
    had_clients: bool,
    has_clients: bool,
    rx1: usize,
    rx2: usize,
    bin_r: usize,
) -> (r: BundlerPlan)
    requires
        frame * 10 <= usize::MAX,
    ensures
        r == bundler_plan(frame as nat, had_clients, has_clients, rx1 as nat, rx2 as nat, bin_r as nat),
        step_fits(r.rx1, rx1 as nat, frame as nat),
        step_fits(r.rx2, rx2 as nat, frame as nat),
        step_fits(r.bin_r, bin_r as nat, frame as nat),
        after_step(r.rx1) <= buffer_cap(frame as nat),
        after_step(r.rx2) <= buffer_cap(frame as nat),
        after_step(r.bin_r) <= buffer_cap(frame as nat),
{
    let cap: usize = frame * 10;
    let c1: usize = if rx1 > cap {
        cap
    } else {
        rx1
    };
    if c1 < frame {
        BundlerPlan {
            action: BundlerTick::Wait,
            rx1: cap_step_exec(rx1, frame),
            rx2: cap_step_exec(rx2, frame),
            bin_r: cap_step_exec(bin_r, frame),
            had_clients,
        }
    } else if !has_clients {
        BundlerPlan {
            action: BundlerTick::NoClients,
            rx1: cap_step_exec(rx1, frame),
            rx2: cap_step_exec(rx2, frame),
            bin_r: cap_step_exec(bin_r, frame),
            had_clients: false,
        }
    } else {
        let a1 = aligned_exec(rx1, frame, had_clients);
        BundlerPlan {
            action: BundlerTick::Encode,
            rx1: BufferStep { skip: rx1 - a1, frame: true, keep: a1 - frame },
            rx2: side_step_exec(rx2, frame, had_clients),
            bin_r: side_step_exec(bin_r, frame, had_clients),
            had_clients: true,
        }
    }
}

/// The number of the bundler's next packet: one more than the last,
/// wrapping, after a tick that encoded any channel.
pub fn next_bundle_sequence(sequence: u32, encoded_any: bool) -> (r: u32)
    ensures
        r == (if encoded_any {
            (sequence + 1) % 0x1_0000_0000
        } else {
            sequence as int
        }),
{
    if encoded_any {
        sequence.wrapping_add(1)
    } else {
        sequence
    }
}

/// When a client (re)connects with at least a frame of RX1 audio buffered,
/// the tick encodes one frame of RX1 and leaves every buffer with at most
/// one frame, RX1 with none: the channels start in step.
pub proof fn lemma_connect_aligns(frame: nat, has_clients: bool, rx1: nat, rx2: nat, bin_r: nat)
    requires
        frame > 0,
        capped(rx1, frame) >= frame,
        has_clients,
    ensures
        ({
            let p = bundler_plan(frame, false, has_clients, rx1, rx2, bin_r);
            &&& p.action == BundlerTick::Encode
            &&& p.rx1.frame
            &&& after_step(p.rx1) == 0
            &&& after_step(p.rx2) <= frame
            &&& after_step(p.bin_r) <= frame
            &&& p.had_clients
        }),
{
}

/// Transmit state of the Yaesu audio loop: whether clients were connected
/// at the last tick, the number of the next packet, and how many samples
/// are buffered.
#[derive(Clone, Copy, Debug, PartialEq, Eq)]
pub struct YaesuTxState {
    pub had_clients: bool,
    pub sequence: u32,
    pub buffered: usize,
}

/// What happens to the Yaesu loop: samples arrived, a tick with or
/// without clients, the encoder reset succeeded or failed, a frame was
/// sent.
#[derive(Clone, Copy, Debug, PartialEq, Eq)]
pub enum YaesuEvent {
    Samples(usize),
    Tick { clients: bool },
    EncoderReset { ok: bool },
    FrameSent,
}

/// What the host does with the Yaesu buffer and encoder.
#[derive(Clone, Copy, Debug, PartialEq, Eq)]
pub enum YaesuAction {
    Nothing,
    /// Drop this many samples from the front of the buffer.
    DropFront(usize),
    /// Empty the buffer.
    Clear,
    /// Make a fresh encoder, then report how that went.
    ResetEncoder,
    /// Take one frame from the front of the buffer, encode it and, when it
    /// gives a packet, send it numbered with the state's sequence.
    EncodeFrame,
}

/// The next state and action of the Yaesu loop, for frames of `frame`
/// samples.
pub open spec fn yaesu_next(s: YaesuTxState, ev: YaesuEvent, frame: nat) -> (YaesuTxState, YaesuAction) {
    match ev {
        YaesuEvent::Samples(k) => {
            let n = s.buffered + k;
            if n > buffer_cap(frame) {
                (
                    YaesuTxState { buffered: buffer_cap(frame) as usize, ..s },
                    YaesuAction::DropFront((n - buffer_cap(frame)) as usize),
                )
            } else {
                (YaesuTxState { buffered: n as usize, ..s }, YaesuAction::Nothing)
            }
        },
        YaesuEvent::Tick { clients } => {
            if !clients {
                (YaesuTxState { had_clients: false, buffered: 0, ..s }, YaesuAction::Clear)
            } else if !s.had_clients {
                (s, YaesuAction::ResetEncoder)
            } else if s.buffered < frame {
                (s, YaesuAction::Nothing)
            } else {
                (YaesuTxState { buffered: (s.buffered - frame) as usize, ..s }, YaesuAction::EncodeFrame)
            }
        },
        YaesuEvent::EncoderReset { ok } => {
            if ok {
                (YaesuTxState { had_clients: true, sequence: 0, buffered: 0 }, YaesuAction::Clear)
            } else {
                (s, YaesuAction::Nothing)
            }
        },
        YaesuEvent::FrameSent => {
            (YaesuTxState { sequence: ((s.sequence + 1) % 0x1_0000_0000) as u32, ..s }, YaesuAction::Nothing)
        },
    }
}

/// One step of the Yaesu audio loop. Arriving samples are appended and the
/// buffer cut to its last ten frames. A tick without clients empties the
/// buffer; the first tick with clients resets the encoder (on success the
/// numbering restarts at 0 and the buffer is emptied; on failure it is
/// tried again next tick); later ticks encode a frame when one is
/// buffered. Each packet sent advances the number, wrapping.
pub fn yaesu_step(s: YaesuTxState, ev: YaesuEvent, frame: usize) -> (r: (YaesuTxState, YaesuAction))
    requires
        frame * 10 <= usize::MAX,
        ev matches YaesuEvent::Samples(k) ==> s.buffered + k <= usize::MAX,
    ensures
        r == yaesu_next(s, ev, frame as nat),
{
    match ev {
        YaesuEvent::Samples(k) => {
            let n: usize = s.buffered + k;
            let cap: usize = frame * 10;
            if n > cap {
                (YaesuTxState { buffered: cap, ..s }, YaesuAction::DropFront(n - cap))
            } else {
                (YaesuTxState { buffered: n, ..s }, YaesuAction::Nothing)
            }
        },
        YaesuEvent::Tick { clients } => {
            if !clients {
                (YaesuTxState { had_clients: false, buffered: 0, ..s }, YaesuAction::Clear)
            } else if !s.had_clients {
                (s, YaesuAction::ResetEncoder)
            } else if s.buffered < frame {
                (s, YaesuAction::Nothing)
            } else {
                (YaesuTxState { buffered: s.buffered - frame, ..s }, YaesuAction::EncodeFrame)
            }
        },
        YaesuEvent::EncoderReset { ok } => {
            if ok {
                (YaesuTxState { had_clients: true, sequence: 0, buffered: 0 }, YaesuAction::Clear)
            } else {
                (s, YaesuAction::Nothing)
            }
        },
        YaesuEvent::FrameSent => {
            (YaesuTxState { sequence: s.sequence.wrapping_add(1), ..s }, YaesuAction::Nothing)
        },
    }
}

/// The Yaesu buffer never holds more than ten frames: a state within the
/// cap stays within it after any event.
pub proof fn lemma_yaesu_buffer_bounded(s: YaesuTxState, ev: YaesuEvent, frame: nat)
    requires
        s.buffered <= buffer_cap(frame),
        buffer_cap(frame) <= usize::MAX,
        ev matches YaesuEvent::Samples(k) ==> s.buffered + k <= usize::MAX,
    ensures
        yaesu_next(s, ev, frame).0.buffered <= buffer_cap(frame),
{
}

/// No frame is encoded for clients before their encoder was reset: a tick
/// asks to encode only once a reset has succeeded since the last tick
/// without clients.
pub proof fn lemma_yaesu_encodes_after_reset(s: YaesuTxState, ev: YaesuEvent, frame: nat)
    ensures
        yaesu_next(s, ev, frame).1 == YaesuAction::EncodeFrame ==> s.had_clients,
        (ev matches YaesuEvent::Tick { clients } && !clients) ==> !yaesu_next(s, ev, frame).0.had_clients,
        (ev == YaesuEvent::EncoderReset { ok: true }) ==> yaesu_next(s, ev, frame).0.sequence == 0,
{
}

/// Frames of `fft` IQ pairs, one every `hop` pairs, that a buffer of `n`
/// pairs holds.
pub open spec fn ddc_frame_count(n: nat, fft: nat, hop: nat) -> nat {
    if n < fft {
        0
    } else {
        ((n - fft) as nat / hop + 1) as nat
    }
}

/// The IQ consumer's processing of a buffer of `buffered` pairs: it
/// processes the frames of `fft_size` pairs starting every `hop` pairs
/// while a full frame remains. Returns the number of frames and the pairs
/// left over (the last ones of the buffer).
pub fn ddc_frames(buffered: usize, fft_size: usize, hop: usize) -> (r: (usize, usize))
    requires
        0 < hop <= fft_size,
    ensures
        r.0 == ddc_frame_count(buffered as nat, fft_size as nat, hop as nat),
        r.1 == buffered - r.0 * hop,
        r.1 < fft_size,
{
    let mut count: usize = 0;
    let mut left: usize = buffered;
    while left >= fft_size
        invariant
            0 < hop <= fft_size,
            left <= buffered,
            left + count * hop == buffered,
            ddc_frame_count(buffered as nat, fft_size as nat, hop as nat) == count + ddc_frame_count(
                left as nat,
                fft_size as nat,
                hop as nat,
            ),
        decreases left,
    {
        proof {
            lemma_frame_count_step(left as nat, fft_size as nat, hop as nat);
            assert((count + 1) * hop == count * hop + hop) by (nonlinear_arith);
        }
        left = left - hop;
        count = count + 1;
    }
    (count, left)
}

/// An IQ channel of the spectrum feed: the frame size and hop its
/// processor uses, and how many pairs are buffered.
#[derive(Clone, Copy, Debug, PartialEq, Eq)]
pub struct IqChannel {
    pub fft_size: usize,
    pub hop: usize,
    pub buffered: usize,
}

/// Whether an IQ batch announcing `frame_rate` changes the channel's
/// sample rate: a known rate other than the current one.
pub fn iq_rate_changes(current: u32, frame_rate: u32) -> (r: bool)
    ensures
        r == (frame_rate != current && frame_rate > 0),
{
    frame_rate != current && frame_rate > 0
}

/// Takes a batch of `pairs` IQ pairs into the channel, whose processor now
/// uses frames of `fft_size` pairs every `hop` pairs. When that frame size
/// changed, everything buffered, the batch included, is dropped. Returns
/// the channel afterwards and the number of frames to process now: the
/// processed frames start every `hop` pairs from the front of the buffer,
/// and the pairs left over are the last ones.
pub fn iq_take(ch: IqChannel, pairs: usize, fft_size: usize, hop: usize) -> (r: (IqChannel, usize))
    requires
        0 < hop <= fft_size,
        ch.buffered + pairs <= usize::MAX,
    ensures
        ({
            let n: nat = if fft_size != ch.fft_size {
                0
            } else {
                (ch.buffered + pairs) as nat
            };
            &&& r.1 == ddc_frame_count(n, fft_size as nat, hop as nat)
            &&& r.0 == IqChannel { fft_size, hop, buffered: (n - r.1 * hop) as usize }
        }),
{
    let n: usize = if fft_size != ch.fft_size {
        0
    } else {
        ch.buffered + pairs
    };
    let (count, left) = ddc_frames(n, fft_size, hop);
    (IqChannel { fft_size, hop, buffered: left }, count)
}

/// The pairs left over after all frames of `t` pairs were processed.
pub open spec fn ddc_leftover(t: nat, fft: nat, hop: nat) -> int {
    t - ddc_frame_count(t, fft, hop) * hop
}

/// Batches processed one after the other give the frames of all the pairs
/// taken together: with `t` pairs seen before, a batch of `n` more added to
/// what was left over yields exactly the frames that the `n` pairs add, and
/// leaves what all `t + n` pairs leave. Every leftover is less than a frame.
pub proof fn lemma_frames_over_batches(t: nat, n: nat, fft: nat, hop: nat)
    requires
        0 < hop <= fft,
    ensures
        0 <= ddc_leftover(t, fft, hop) < fft,
        ddc_frame_count((ddc_leftover(t, fft, hop) + n) as nat, fft, hop) == ddc_frame_count(t + n, fft, hop)
            - ddc_frame_count(t, fft, hop),
        ddc_leftover((ddc_leftover(t, fft, hop) + n) as nat, fft, hop) == ddc_leftover(t + n, fft, hop),
{
    let ft = ddc_frame_count(t, fft, hop);
    let b = ddc_leftover(t, fft, hop);
    let tn = (t + n) as nat;
    if t < fft {
        assert(b == t);
    } else {
        let x = (t - fft) as int;
        vstd::arithmetic::div_mod::lemma_fundamental_div_mod(x, hop as int);
        let q = x / (hop as int);
        let r = x % (hop as int);
        assert(ft == q + 1);
        assert(b == fft - hop + r) by (nonlinear_arith)
            requires
                b == t - ft * hop,
                ft == q + 1,
                x == t - fft,
                x == hop * q + r,
        ;
        let y = b + n - fft;
        vstd::arithmetic::div_mod::lemma_fundamental_div_mod(y, hop as int);
        let q2 = y / (hop as int);
        let r2 = y % (hop as int);
        assert((tn - fft) == (q2 + q + 1) * hop + r2) by (nonlinear_arith)
            requires
                y == hop * q2 + r2,
                y == b + n - fft,
                b == fft - hop + r,
                x == hop * q + r,
                x == t - fft,
                tn == t + n,
        ;
        vstd::arithmetic::div_mod::lemma_fundamental_div_mod_converse_div(
            tn - fft,
            hop as int,
            q2 + q + 1,
            r2,
        );
        if b + n < fft {
            assert(y < 0 && y >= -(hop as int));
            assert(q2 == -1) by (nonlinear_arith)
                requires
                    y == hop * q2 + r2,
                    0 <= r2 < hop,
                    -hop <= y < 0,
            ;
        }
    }
    let fb = ddc_frame_count((b + n) as nat, fft, hop);
    let ftn = ddc_frame_count(tn, fft, hop);
    assert((b + n) - fb * hop == tn - ftn * hop) by (nonlinear_arith)
        requires
            fb == ftn - ft,
            b == t - ft * hop,
            tn == t + n,
    ;
}

proof fn lemma_frame_count_step(n: nat, fft: nat, hop: nat)
    requires
        0 < hop <= fft <= n,
    ensures
        ddc_frame_count(n, fft, hop) == 1 + ddc_frame_count((n - hop) as nat, fft, hop),
{
    let m = (n - fft) as nat;
    if n - hop < fft {
        assert(m < hop);
        assert(m / hop == 0) by (nonlinear_arith)
            requires
                m < hop,
        ;
    } else {
        assert(m / hop == (m - hop) as nat / hop + 1) by (nonlinear_arith)
            requires
                m >= hop,
                hop > 0,
        ;
    }
}

} // verus!
