//! What the status panel shows and changes for the tuner slots and the
//! link status: the board serials a slot's picker offers, the texts of the
//! pickers and status lines, and the settings a pick changes.

use vstd::prelude::*;
use vstd::string::{StrSliceExecFns, StringExecFns};

use crate::discovery::{
    lemma_text_le_antisymmetric, lemma_text_le_total, lemma_text_le_transitive, text_le,
    text_le_exec,
};
use crate::panel::{infer_model_from_serial, spec_duration_short, spec_infer_model, format_duration_short};
use crate::scan::{chars_of, decimal_digits, push_decimal, trim, trim_span};
use crate::settings::{labels_view, ServerSettings, SettingsView, TunerSettingsView, TunerSlotsView};

verus! {

/// The texts that `v` holds.
pub open spec fn texts(v: Seq<String>) -> Seq<Seq<char>> {
    v.map_values(|s: String| s@)
}

/// Whether text `a` comes strictly before `b` in character order.
pub open spec fn text_lt(a: Seq<char>, b: Seq<char>) -> bool {
    text_le(a, b) && a != b
}

/// Whether the texts are in strictly increasing order, so that none occurs
/// twice.
pub open spec fn strictly_sorted(s: Seq<Seq<char>>) -> bool {
    forall|i: int, j: int| 0 <= i < j < s.len() ==> text_lt(#[trigger] s[i], #[trigger] s[j])
}

/// Whether a tuner slot's picker offers serial `t`: a serial that is not
/// empty and was found by the last scan or is the slot's current one.
pub open spec fn offered(scan: Seq<Seq<char>>, current: Seq<char>, t: Seq<char>) -> bool {
    t.len() > 0 && (scan.contains(t) || t == current)
}

proof fn lemma_text_lt_transitive(a: Seq<char>, b: Seq<char>, c: Seq<char>)
    requires
        text_lt(a, b),
        text_lt(b, c),
    ensures
        text_lt(a, c),
{
    lemma_text_le_transitive(a, b, c);
    if a == c {
        lemma_text_le_antisymmetric(a, b);
    }
}

/// Adds `s` to the strictly increasing texts `out`, where it belongs, unless
/// it is there already.
fn insert_text(out: &mut Vec<String>, s: String)
    requires
        strictly_sorted(texts(old(out)@)),
    ensures
        strictly_sorted(texts(final(out)@)),
        forall|t: Seq<char>| #[trigger] texts(final(out)@).contains(t) <==> (texts(old(out)@).contains(t) || t == s@),
{
    let sc = chars_of(s.as_str());
    let ghost before = texts(out@);
    let mut p: usize = 0;
    while p < out.len() && !text_le_exec(&sc, &chars_of(out[p].as_str()))
        invariant
            p <= out@.len(),
            sc@ == s@,
            before == texts(out@),
            forall|k: int| 0 <= k < p ==> !text_le(s@, #[trigger] before[k]),
        decreases out@.len() - p,
    {
        assert(before[p as int] == out@[p as int]@);
        p = p + 1;
    }
    if p < out.len() && out[p] == s {
        assert(before[p as int] == s@);
        assert forall|t: Seq<char>| #[trigger] before.contains(t) <==> (before.contains(t) || t == s@) by {
            if t == s@ {
                assert(before[p as int] == t);
            }
        }
        return;
    }
    out.insert(p, s);
    let ghost after = texts(out@);
    proof {
        assert(after =~= before.insert(p as int, s@));
        if p < before.len() {
            assert(before[p as int] == old(out)@[p as int]@);
            assert(text_le(s@, before[p as int]));
            assert(before[p as int] != s@);
        }
        assert forall|k: int| 0 <= k < p implies text_lt(#[trigger] before[k], s@) by {
            lemma_text_le_total(s@, before[k]);
            if before[k] == s@ {
                lemma_text_le_total(s@, s@);
            }
        }
        assert forall|k: int| p <= k < before.len() implies text_lt(s@, #[trigger] before[k]) by {
            if k > p {
                lemma_text_lt_transitive(s@, before[p as int], before[k]);
            }
        }
        assert forall|a: int, b: int| 0 <= a < b < after.len() implies text_lt(
            #[trigger] after[a],
            #[trigger] after[b],
        ) by {
            if b < p {
                assert(after[a] == before[a] && after[b] == before[b]);
            } else if b == p {
                assert(after[a] == before[a]);
            } else if a == p {
                assert(after[b] == before[b - 1]);
            } else if a < p {
                assert(after[a] == before[a] && after[b] == before[b - 1]);
            } else {
                assert(after[a] == before[a - 1] && after[b] == before[b - 1]);
            }
        }
        assert forall|t: Seq<char>| #[trigger] after.contains(t) <==> (before.contains(t) || t == s@) by {
            if after.contains(t) {
                let i = choose|i: int| 0 <= i < after.len() && after[i] == t;
                if i < p {
                    assert(before[i] == t);
                } else if i > p {
                    assert(before[i - 1] == t);
                }
            }
            if before.contains(t) {
                let i = choose|i: int| 0 <= i < before.len() && before[i] == t;
                if i < p {
                    assert(after[i] == t);
                } else {
                    assert(after[i + 1] == t);
                }
            }
            if t == s@ {
                assert(after[p as int] == t);
            }
        }
    }
}

/// The board serials a tuner slot's picker offers: the serials of the last
/// scan and the slot's current serial, leaving out empty ones, each once,
/// in character order.
pub fn serial_options(scan: &Vec<String>, current: &str) -> (r: Vec<String>)
    ensures
        strictly_sorted(texts(r@)),
        forall|t: Seq<char>| #[trigger] texts(r@).contains(t) <==> offered(texts(scan@), current@, t),
{
    let ghost all = texts(scan@);
    let mut out: Vec<String> = Vec::new();
    let mut i: usize = 0;
    assert(texts(out@) =~= Seq::<Seq<char>>::empty());
    while i < scan.len()
        invariant
            i <= scan@.len(),
            all == texts(scan@),
            strictly_sorted(texts(out@)),
            forall|t: Seq<char>| #[trigger] texts(out@).contains(t) <==> (t.len() > 0 && all.subrange(0, i as int).contains(t)),
        decreases scan@.len() - i,
    {
        let ghost prefix = all.subrange(0, i as int);
        let ghost next = all.subrange(0, i + 1);
        assert(all[i as int] == scan@[i as int]@);
        assert forall|t: Seq<char>| #[trigger] next.contains(t) <==> (prefix.contains(t) || t == all[i as int]) by {
            if next.contains(t) {
                let k = choose|k: int| 0 <= k < next.len() && next[k] == t;
                if k < i {
                    assert(prefix[k] == t);
                }
            }
            if prefix.contains(t) {
                let k = choose|k: int| 0 <= k < prefix.len() && prefix[k] == t;
                assert(next[k] == t);
            }
            if t == all[i as int] {
                assert(next[i as int] == t);
            }
        }
        if scan[i].as_str().unicode_len() > 0 {
            insert_text(&mut out, scan[i].clone());
        }
        i = i + 1;
    }
    assert(all.subrange(0, scan@.len() as int) =~= all);
    if current.unicode_len() > 0 {
        insert_text(&mut out, String::from_str(current));
    }
    out
}

/// The text a serial picker shows: the current serial, or when there is
/// none a hint that depends on whether the slot is enabled.
pub open spec fn picker_text(current: Seq<char>, slot_enabled: bool) -> Seq<char> {
    if current.len() > 0 {
        current
    } else if slot_enabled {
        "(first available)"@
    } else {
        "(select board)"@
    }
}

/// The text a tuner slot's serial picker shows.
pub fn serial_picker_text(current: &str, slot_enabled: bool) -> (r: String)
    ensures
        r@ == picker_text(current@, slot_enabled),
{
    if current.unicode_len() > 0 {
        String::from_str(current)
    } else if slot_enabled {
        String::from_str("(first available)")
    } else {
        String::from_str("(select board)")
    }
}

/// How antenna position `p` is offered: its number, followed by its label
/// when it has one.
pub open spec fn position_option(p: nat, label: Seq<char>) -> Seq<char> {
    if label.len() == 0 {
        decimal_digits(p)
    } else {
        decimal_digits(p) + ": "@ + label
    }
}

/// The text the antenna-position picker shows for the slot's position.
pub open spec fn position_picker_text(current: Option<u8>, labels: Seq<Seq<char>>) -> Seq<char> {
    match current {
        None => "(none)"@,
        Some(p) => if 1 <= p <= 6 {
            position_option(p as nat, labels[p - 1])
        } else {
            decimal_digits(p as nat) + " (out of range)"@
        },
    }
}

/// How antenna position `p` is offered in the picker.
pub fn position_option_text(p: u8, label: &str) -> (r: String)
    ensures
        r@ == position_option(p as nat, label@),
{
    let mut out = String::new();
    push_decimal(&mut out, p as u64);
    if label.unicode_len() > 0 {
        out.append(": ");
        out.append(label);
    }
    out
}

/// The text the antenna-position picker shows, given the position labels.
pub fn amplitec_pos_text(current: Option<u8>, labels: &[String; 6]) -> (r: String)
    ensures
        r@ == position_picker_text(current, labels_view(*labels)),
{
    match current {
        None => String::from_str("(none)"),
        Some(p) => {
            if 1 <= p && p <= 6 {
                let i: usize = (p - 1) as usize;
                position_option_text(p, labels[i].as_str())
            } else {
                let mut out = String::new();
                push_decimal(&mut out, p as u64);
                out.append(" (out of range)");
                out
            }
        },
    }
}

/// The choices of the antenna-position picker after "(none)": positions 1
/// to 6 with their labels.
pub fn position_options(labels: &[String; 6]) -> (r: Vec<String>)
    ensures
        r@.len() == 6,
        forall|i: int| 0 <= i < 6 ==> #[trigger] r@[i]@ == position_option((i + 1) as nat, labels_view(*labels)[i]),
{
    let mut out: Vec<String> = Vec::new();
    let mut i: usize = 0;
    while i < 6
        invariant
            i <= 6,
            out@.len() == i,
            forall|k: int| 0 <= k < i ==> #[trigger] out@[k]@ == position_option((k + 1) as nat, labels_view(*labels)[k]),
        decreases 6 - i,
    {
        let t = position_option_text((i + 1) as u8, labels[i].as_str());
        out.push(t);
        i = i + 1;
    }
    out
}

/// Tuner slot `slot` (0 or 1) of the settings.
pub open spec fn slot_view(s: SettingsView, slot: int) -> TunerSettingsView {
    if slot == 0 {
        s.tuners.tuner1
    } else {
        s.tuners.tuner2
    }
}

/// The settings with tuner slot `slot` (0 or 1) replaced.
pub open spec fn with_slot(s: SettingsView, slot: int, t: TunerSettingsView) -> SettingsView {
    if slot == 0 {
        SettingsView { tuners: TunerSlotsView { tuner1: t, ..s.tuners }, ..s }
    } else {
        SettingsView { tuners: TunerSlotsView { tuner2: t, ..s.tuners }, ..s }
    }
}

/// The serial a slot's picker starts from: the slot's serial, or none for a
/// slot number past the two slots.
pub open spec fn current_serial(s: SettingsView, slot: int) -> Seq<char> {
    if slot < 2 {
        slot_view(s, slot).mcp_serial
    } else {
        Seq::empty()
    }
}

/// Whether picking serial `chosen` for slot `slot` changes the settings: a
/// slot that exists, a serial that differs from the current one and, for a
/// slot not yet enabled, a serial that is not empty.
pub open spec fn serial_pick_applies(s: SettingsView, slot: int, chosen: Seq<char>, slot_enabled: bool) -> bool {
    &&& slot < 2
    &&& chosen != current_serial(s, slot)
    &&& (slot_enabled || chosen.len() > 0)
}

/// Applies a serial picked for tuner slot `slot` (0 or 1): the slot takes
/// the serial, the model it suggests, and is enabled. Returns whether the
/// settings changed (the server then restarts).
pub fn pick_tuner_serial(settings: &mut ServerSettings, slot: usize, chosen: String, slot_enabled: bool) -> (applied: bool)
    ensures
        applied == serial_pick_applies(old(settings)@, slot as int, chosen@, slot_enabled),
        final(settings)@ == (if applied {
            with_slot(
                old(settings)@,
                slot as int,
                TunerSettingsView {
                    mcp_serial: chosen@,
                    model: spec_infer_model(chosen@),
                    enabled: true,
                    ..slot_view(old(settings)@, slot as int)
                },
            )
        } else {
            old(settings)@
        }),
{
    if slot >= 2 {
        return false;
    }
    let same = if slot == 0 {
        settings.tuners.tuner1.mcp_serial == chosen
    } else {
        settings.tuners.tuner2.mcp_serial == chosen
    };
    if same || (!slot_enabled && chosen.as_str().unicode_len() == 0) {
        return false;
    }
    let model = infer_model_from_serial(chosen.as_str());
    if slot == 0 {
        settings.tuners.tuner1.mcp_serial = chosen;
        settings.tuners.tuner1.model = model;
        settings.tuners.tuner1.enabled = true;
    } else {
        settings.tuners.tuner2.mcp_serial = chosen;
        settings.tuners.tuner2.model = model;
        settings.tuners.tuner2.enabled = true;
    }
    true
}

/// Applies an antenna position picked for tuner slot `slot` (0 or 1).
/// Returns whether the settings changed (the server then restarts): only
/// for a slot that exists and a position that differs from its own.
pub fn pick_tuner_position(settings: &mut ServerSettings, slot: usize, chosen: Option<u8>) -> (applied: bool)
    ensures
        applied == (slot < 2 && chosen != slot_view(old(settings)@, slot as int).amplitec_pos),
        final(settings)@ == (if applied {
            with_slot(
                old(settings)@,
                slot as int,
                TunerSettingsView { amplitec_pos: chosen, ..slot_view(old(settings)@, slot as int) },
            )
        } else {
            old(settings)@
        }),
{
    if slot >= 2 {
        return false;
    }
    let current = if slot == 0 {
        settings.tuners.tuner1.amplitec_pos
    } else {
        settings.tuners.tuner2.amplitec_pos
    };
    let same = match (current, chosen) {
        (None, None) => true,
        (Some(a), Some(b)) => a == b,
        _ => false,
    };
    if same {
        return false;
    }
    if slot == 0 {
        settings.tuners.tuner1.amplitec_pos = chosen;
    } else {
        settings.tuners.tuner2.amplitec_pos = chosen;
    }
    true
}

/// The serial to program into a board from the text typed for it: the
/// text without surrounding white space, which must not be empty.
pub fn serial_to_program(typed: &str) -> (r: Result<String, String>)
    ensures
        match r {
            Ok(s) => trim(typed@).len() > 0 && s@ == trim(typed@),
            Err(e) => trim(typed@).len() == 0 && e@ == "serial cannot be empty"@,
        },
{
    let chars = chars_of(typed);
    let (lo, hi) = trim_span(&chars, 0, chars.len());
    assert(chars@.subrange(0, chars@.len() as int) =~= typed@);
    if lo == hi {
        Err(String::from_str("serial cannot be empty"))
    } else {
        Ok(String::from_str(typed.substring_char(lo, hi)))
    }
}

/// Pre-fills a board's empty serial input with the serial it has, so that
/// renaming starts from it.
pub fn prefill_serial_input(input: &mut String, serial: &str)
    ensures
        final(input)@ == (if old(input)@.len() == 0 && serial@.len() > 0 {
            serial@
        } else {
            old(input)@
        }),
{
    if input.as_str().unicode_len() == 0 && serial.unicode_len() > 0 {
        *input = String::from_str(serial);
    }
}

/// The mark and hover text of a device in the panel's device row: filled
/// when it was configured at server start, hollow when not.
pub open spec fn device_dot(label: Seq<char>, configured: bool) -> (Seq<char>, Seq<char>) {
    if configured {
        ("\u{25cf}"@, label + ": configured at server-start"@)
    } else {
        ("\u{25cb}"@, label + ": not configured"@)
    }
}

/// The mark and hover text of a device in the panel's device row.
pub fn device_dot_text(label: &str, configured: bool) -> (r: (String, String))
    ensures
        (r.0@, r.1@) == device_dot(label@, configured),
{
    let mut tip = String::from_str(label);
    if configured {
        tip.append(": configured at server-start");
        (String::from_str("\u{25cf}"), tip)
    } else {
        tip.append(": not configured");
        (String::from_str("\u{25cb}"), tip)
    }
}

/// The status line of the link to the radio program, given whether it is
/// connected and for how many whole seconds it has been in that state, if
/// known.
pub open spec fn link_status(connected: bool, age_secs: Option<u64>) -> Seq<char> {
    if connected {
        "Connected  ("@ + (match age_secs {
            Some(a) => spec_duration_short(a as nat),
            None => "\u{2014}"@,
        }) + ")"@
    } else {
        "Disconnected  ("@ + (match age_secs {
            Some(a) => "for "@ + spec_duration_short(a as nat),
            None => "since startup"@,
        }) + ")"@
    }
}

/// The status line of the link to the radio program.
pub fn link_status_text(connected: bool, age_secs: Option<u64>) -> (r: String)
    ensures
        r@ == link_status(connected, age_secs),
{
    let mut out = if connected {
        String::from_str("Connected  (")
    } else {
        String::from_str("Disconnected  (")
    };
    match age_secs {
        Some(a) => {
            if !connected {
                out.append("for ");
            }
            let d = format_duration_short(a);
            out.append(d.as_str());
        },
        None => {
            if connected {
                out.append("\u{2014}");
            } else {
                out.append("since startup");
            }
        },
    }
    out.append(")");
    out
}

/// How recently an audio channel carried a frame, as the panel marks it.
#[derive(Clone, Copy, Debug, PartialEq, Eq)]
pub enum ChannelActivity {
    /// No frame yet.
    Never,
    /// A frame within the last second.
    Live,
    /// A frame within the last five seconds.
    Recent,
    /// No frame for five seconds or more.
    Idle,
}

/// The activity of a channel whose last frame is `age_secs` whole seconds
/// old, if it had one.
pub open spec fn activity(age_secs: Option<u64>) -> ChannelActivity {
    match age_secs {
        None => ChannelActivity::Never,
        Some(a) => if a < 1 {
            ChannelActivity::Live
        } else if a < 5 {
            ChannelActivity::Recent
        } else {
            ChannelActivity::Idle
        },
    }
}

/// The hover text of an audio channel: never seen, or how long ago it last
/// carried a frame and how many it carried since the server started.
pub open spec fn channel_tip(label: Seq<char>, age_secs: Option<u64>, count: u64) -> Seq<char> {
    match age_secs {
        None => label + ": never seen"@,
        Some(a) => label + ": "@ + spec_duration_short(a as nat) + " ago, "@ + decimal_digits(count as nat)
            + " frames since start"@,
    }
}

/// The activity mark and hover text of an audio channel in the panel.
pub fn channel_chip(label: &str, age_secs: Option<u64>, count: u64) -> (r: (ChannelActivity, String))
    ensures
        r.0 == activity(age_secs),
        r.1@ == channel_tip(label@, age_secs, count),
{
    let mut tip = String::from_str(label);
    match age_secs {
        None => {
            tip.append(": never seen");
            (ChannelActivity::Never, tip)
        },
        Some(a) => {
            tip.append(": ");
            let d = format_duration_short(a);
            tip.append(d.as_str());
            tip.append(" ago, ");
            push_decimal(&mut tip, count);
            tip.append(" frames since start");
            let mark = if a < 1 {
                ChannelActivity::Live
            } else if a < 5 {
                ChannelActivity::Recent
            } else {
                ChannelActivity::Idle
            };
            (mark, tip)
        },
    }
}

/// `t` padded with spaces on the right to at least `width` characters.
pub open spec fn padded(t: Seq<char>, width: nat) -> Seq<char> {
    if t.len() >= width {
        t
    } else {
        t + Seq::new((width - t.len()) as nat, |i: int| ' ')
    }
}

/// Appends `t` padded with spaces on the right to at least `width`
/// characters.
fn push_padded(out: &mut String, t: &str, width: usize)
    ensures
        final(out)@ == old(out)@ + padded(t@, width as nat),
{
    let n = t.unicode_len();
    out.append(t);
    let ghost start = old(out)@ + t@;
    let mut k: usize = n;
    while k < width
        invariant
            n == t@.len(),
            k >= n,
            k == n || k <= width,
            out@ == start + Seq::new((k - n) as nat, |i: int| ' '),
        decreases width - k,
    {
        out.append(" ");
        proof {
            reveal_strlit(" ");
        }
        assert(start + Seq::new((k + 1 - n) as nat, |i: int| ' ') =~= start + Seq::new(
            (k - n) as nat,
            |i: int| ' ',
        ) + " "@);
        k = k + 1;
    }
    if n < width {
        assert(k == width);
        assert(out@ =~= old(out)@ + padded(t@, width as nat));
    } else {
        assert(k == n);
        assert(Seq::new((k - n) as nat, |i: int| ' ') =~= Seq::<char>::empty());
        assert(out@ =~= old(out)@ + padded(t@, width as nat));
    }
}

/// The panel's line for one connected client: its address, how long it has
/// been connected, its round-trip time, loss and jitter, and how long ago
/// it was last heard from.
pub open spec fn client_line(
    addr: Seq<char>,
    connected_secs: u64,
    rtt_ms: u64,
    loss_percent: u64,
    jitter_ms: u64,
    seen_secs: u64,
) -> Seq<char> {
    "  "@ + padded(addr, 22) + "  connected "@ + padded(spec_duration_short(connected_secs as nat), 8)
        + "  rtt="@ + decimal_digits(rtt_ms as nat) + "ms  loss="@ + decimal_digits(loss_percent as nat)
        + "%  jitter="@ + decimal_digits(jitter_ms as nat) + "ms   (seen "@ + decimal_digits(
        seen_secs as nat,
    ) + "s ago)"@
}

/// The panel's line for one connected client.
pub fn client_line_text(
    addr: &str,
    connected_secs: u64,
    rtt_ms: u64,
    loss_percent: u64,
    jitter_ms: u64,
    seen_secs: u64,
) -> (r: String)
    ensures
        r@ == client_line(addr@, connected_secs, rtt_ms, loss_percent, jitter_ms, seen_secs),
{
    let mut out = String::from_str("  ");
    push_padded(&mut out, addr, 22);
    out.append("  connected ");
    let d = format_duration_short(connected_secs);
    push_padded(&mut out, d.as_str(), 8);
    out.append("  rtt=");
    push_decimal(&mut out, rtt_ms);
    out.append("ms  loss=");
    push_decimal(&mut out, loss_percent);
    out.append("%  jitter=");
    push_decimal(&mut out, jitter_ms);
    out.append("ms   (seen ");
    push_decimal(&mut out, seen_secs);
    out.append("s ago)");
    out
}

/// Whether a client's line is marked for attention: while it is still
/// authenticating, or when it has not been heard from for more than five
/// seconds.
pub fn client_needs_attention(authenticated: bool, seen_secs: u64) -> (r: bool)
    ensures
        r == (!authenticated || seen_secs > 5),
{
    !authenticated || seen_secs > 5
}

} // verus!
