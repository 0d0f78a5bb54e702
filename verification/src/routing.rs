//! Which audio channels each client receives: the channel bundle is
//! filtered by the client's audio mode and its RX2 switch, and the
//! wideband payload set is used only for clients that opted in.

use vstd::prelude::*;

use crate::wire::copy_range;

verus! {

/// Channel id of receiver 1.
pub const CH_RX1: u8 = 0;

/// Channel id of the binaural right channel of receiver 1.
pub const CH_BIN_R: u8 = 1;

/// Channel id of receiver 2.
pub const CH_RX2: u8 = 2;

/// Whether a client in audio `mode` receives channel `ch_id`: mode 1
/// (binaural) receives every channel, modes 0 (mono) and 2 (split) receive
/// receivers 1 and 2, any other mode (255 is the default of clients that
/// never chose) only receiver 1; receiver 2 never reaches a client that
/// switched it off.
pub open spec fn spec_channel_allowed(mode: u8, ch_id: u8, rx2_enabled: bool) -> bool {
    let by_mode = if mode == 1 {
        true
    } else if mode == 0 || mode == 2 {
        ch_id == CH_RX1 || ch_id == CH_RX2
    } else {
        ch_id == CH_RX1
    };
    by_mode && !(ch_id == CH_RX2 && !rx2_enabled)
}

/// Decides whether a client receives a channel.
pub fn channel_allowed(mode: u8, ch_id: u8, rx2_enabled: bool) -> (r: bool)
    ensures
        r == spec_channel_allowed(mode, ch_id, rx2_enabled),
{
    let allowed = match mode {
        255 => ch_id == CH_RX1,
        0 => ch_id == CH_RX1 || ch_id == CH_RX2,
        1 => true,
        2 => ch_id == CH_RX1 || ch_id == CH_RX2,
        _ => ch_id == CH_RX1,
    };
    if !allowed {
        return false;
    }
    if ch_id == CH_RX2 && !rx2_enabled {
        return false;
    }
    true
}

/// The channels of a bundle that a client receives, in bundle order.
pub open spec fn spec_client_channels(cs: Seq<(u8, Seq<u8>)>, mode: u8, rx2_enabled: bool) -> Seq<(u8, Seq<u8>)>
    decreases cs.len(),
{
    if cs.len() == 0 {
        cs
    } else if spec_channel_allowed(mode, cs.last().0, rx2_enabled) {
        spec_client_channels(cs.drop_last(), mode, rx2_enabled).push(cs.last())
    } else {
        spec_client_channels(cs.drop_last(), mode, rx2_enabled)
    }
}

/// The part of a channel bundle meant for one client.
pub fn client_channels(channels: &Vec<(u8, Vec<u8>)>, mode: u8, rx2_enabled: bool) -> (r: Vec<(u8, Vec<u8>)>)
    ensures
        r.deep_view() == spec_client_channels(channels.deep_view(), mode, rx2_enabled),
{
    let ghost all = channels.deep_view();
    let mut out: Vec<(u8, Vec<u8>)> = Vec::new();
    let mut i: usize = 0;
    while i < channels.len()
        invariant
            i <= channels@.len(),
            all == channels.deep_view(),
            all.len() == channels@.len(),
            out.deep_view() == spec_client_channels(all.subrange(0, i as int), mode, rx2_enabled),
        decreases channels@.len() - i,
    {
        assert(all.subrange(0, i + 1).drop_last() =~= all.subrange(0, i as int));
        let ch_id = channels[i].0;
        if channel_allowed(mode, ch_id, rx2_enabled) {
            let payload = &channels[i].1;
            let copy = copy_range(payload.as_slice(), 0, payload.len());
            assert(payload@.subrange(0, payload@.len() as int) =~= payload@);
            let ghost before = out.deep_view();
            out.push((ch_id, copy));
            assert(out.deep_view() =~= before.push(all[i as int]));
        }
        i = i + 1;
    }
    assert(all.subrange(0, channels@.len() as int) =~= all);
    out
}

/// Whether a client gets the wideband payload set: only when it opted in
/// and this frame has wideband payloads at all.
pub fn use_wideband_payload(client_wants_wideband: bool, wideband_channels: usize) -> (r: bool)
    ensures
        r == (client_wants_wideband && wideband_channels > 0),
{
    client_wants_wideband && wideband_channels > 0
}

/// The control-state slot of a virtual receiver: its id, with ids past the
/// last slot falling back to the first receiver's slot.
pub fn vrx_slot_index(id: u8, slots: usize) -> (r: usize)
    requires
        slots > 0,
    ensures
        r == (if (id as int) < slots {
            id as int
        } else {
            0
        }),
{
    if (id as usize) < slots {
        id as usize
    } else {
        0
    }
}

/// What one client is sent in a bundler tick: the channels of the
/// wideband set when it opted in and that set is not empty, of the
/// narrowband set otherwise, that its audio mode and receiver-2 switch
/// allow, in bundle order; nothing when none remain.
pub open spec fn spec_client_bundle(
    nb: Seq<(u8, Seq<u8>)>,
    wb: Seq<(u8, Seq<u8>)>,
    mode: u8,
    rx2_enabled: bool,
    wants_wideband: bool,
) -> Option<Seq<(u8, Seq<u8>)>> {
    let src = if wants_wideband && wb.len() > 0 {
        wb
    } else {
        nb
    };
    let chs = spec_client_channels(src, mode, rx2_enabled);
    if chs.len() == 0 {
        None
    } else {
        Some(chs)
    }
}

/// The one packet's channels a client is sent in a bundler tick, or
/// `None` when the client gets no packet this tick.
pub fn client_bundle(
    nb: &Vec<(u8, Vec<u8>)>,
    wb: &Vec<(u8, Vec<u8>)>,
    mode: u8,
    rx2_enabled: bool,
    wants_wideband: bool,
) -> (r: Option<Vec<(u8, Vec<u8>)>>)
    ensures
        r.is_none() == spec_client_bundle(nb.deep_view(), wb.deep_view(), mode, rx2_enabled, wants_wideband).is_none(),
        r matches Some(v) ==> spec_client_bundle(nb.deep_view(), wb.deep_view(), mode, rx2_enabled, wants_wideband)
            == Some(v.deep_view()),
{
    let use_wb = use_wideband_payload(wants_wideband, wb.len());
    let chs = if use_wb {
        client_channels(wb, mode, rx2_enabled)
    } else {
        client_channels(nb, mode, rx2_enabled)
    };
    if chs.len() == 0 {
        None
    } else {
        Some(chs)
    }
}

/// The channels each audio mode receives: receiver 1 in every mode and
/// whatever the receiver-2 switch; mono (0) and split (2) the same,
/// receivers 1 and 2; binaural (1) every channel; any other mode receiver 1
/// only; and receiver 2 only while it is switched on.
pub proof fn lemma_channel_rules(mode: u8, ch_id: u8, rx2_enabled: bool)
    ensures
        spec_channel_allowed(mode, CH_RX1, rx2_enabled),
        spec_channel_allowed(2, ch_id, rx2_enabled) == spec_channel_allowed(0, ch_id, rx2_enabled),
        spec_channel_allowed(0, ch_id, rx2_enabled) == (ch_id == 0 || (ch_id == 2 && rx2_enabled)),
        spec_channel_allowed(1, ch_id, rx2_enabled) == (ch_id != 2 || rx2_enabled),
        mode != 0 && mode != 1 && mode != 2 ==> spec_channel_allowed(mode, ch_id, rx2_enabled) == (ch_id == 0),
{
}

/// Receiver 1 always reaches a client: every receiver-1 entry of a bundle
/// is in the part the client receives, whatever its mode and switch.
pub proof fn lemma_rx1_always_sent(cs: Seq<(u8, Seq<u8>)>, mode: u8, rx2_enabled: bool)
    ensures
        forall|i: int|
            0 <= i < cs.len() && cs[i].0 == CH_RX1 ==> #[trigger] spec_client_channels(cs, mode, rx2_enabled).contains(
                cs[i],
            ),
    decreases cs.len(),
{
    if cs.len() > 0 {
        lemma_rx1_always_sent(cs.drop_last(), mode, rx2_enabled);
        let sub = spec_client_channels(cs.drop_last(), mode, rx2_enabled);
        assert forall|i: int|
            0 <= i < cs.len() && cs[i].0 == CH_RX1 implies #[trigger] spec_client_channels(
                cs,
                mode,
                rx2_enabled,
            ).contains(cs[i]) by {
            if i == cs.len() - 1 {
                let r = spec_client_channels(cs, mode, rx2_enabled);
                assert(r == sub.push(cs.last()));
                assert(r[r.len() - 1] == cs[i]);
            } else {
                assert(cs.drop_last()[i] == cs[i]);
                assert(sub.contains(cs.drop_last()[i]));
                let j = choose|j: int| 0 <= j < sub.len() && sub[j] == cs[i];
                let r = spec_client_channels(cs, mode, rx2_enabled);
                if spec_channel_allowed(mode, cs.last().0, rx2_enabled) {
                    assert(r[j] == sub[j]);
                }
            }
        }
    }
}

/// Every channel a client receives is one its mode allows and one of the
/// bundle's; in particular a client that switched receiver 2 off never
/// receives it, whatever its mode.
pub proof fn lemma_client_channels_allowed(cs: Seq<(u8, Seq<u8>)>, mode: u8, rx2_enabled: bool)
    ensures
        forall|i: int|
            0 <= i < spec_client_channels(cs, mode, rx2_enabled).len() ==> {
                let c = #[trigger] spec_client_channels(cs, mode, rx2_enabled)[i];
                &&& spec_channel_allowed(mode, c.0, rx2_enabled)
                &&& cs.contains(c)
                &&& (!rx2_enabled ==> c.0 != CH_RX2)
            },
    decreases cs.len(),
{
    if cs.len() > 0 {
        lemma_client_channels_allowed(cs.drop_last(), mode, rx2_enabled);
        let r = spec_client_channels(cs, mode, rx2_enabled);
        let prev = spec_client_channels(cs.drop_last(), mode, rx2_enabled);
        assert forall|i: int| 0 <= i < r.len() implies {
            let c = #[trigger] r[i];
            &&& spec_channel_allowed(mode, c.0, rx2_enabled)
            &&& cs.contains(c)
            &&& (!rx2_enabled ==> c.0 != CH_RX2)
        } by {
            if i < prev.len() {
                assert(r[i] == prev[i]);
                let c = prev[i];
                let k = choose|k: int| 0 <= k < cs.drop_last().len() && cs.drop_last()[k] == c;
                assert(cs[k] == c);
            } else {
                assert(r[i] == cs.last());
                assert(cs[cs.len() - 1] == cs.last());
            }
        }
    }
}

} // verus!
