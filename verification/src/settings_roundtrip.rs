//! Settings saved and read back are the settings that were saved, and the
//! floating-point entries the file holds read back as they were written:
//! the read-modify-write helpers rely on this to leave every other setting
//! as it was.

use vstd::prelude::*;

use crate::scan::{
    all_digits, decimal_digits, index_of_first, is_white_space, lemma_decimal_digits_value,
    lemma_index_of_first, lemma_index_of_first_props, lemma_parse_decimal_digits, trim, trim_end,
    trim_start,
};
use crate::settings::{
    lemma_tuner_model_roundtrip, numbered_labels, FloatSetting, Window, AmplitecView, RadioView,
    SettingsView, TunerSettingsView, TunerSlotsView, default_settings,
};
use crate::settings_file::{
    apply_entry, apply_line, apply_lines, settings_from_text,
    skip, FloatList,
};
use crate::settings_laws::{
    lemma_access_keys, lemma_cluster_keys, lemma_label_keys, lemma_pos_keys, lemma_radio_keys,
    lemma_rf2k_keys, lemma_rotor_keys, lemma_session_keys, lemma_size_keys, lemma_spe_keys,
    lemma_switch_keys, lemma_tuner1_keys, lemma_tuner2_keys, lemma_ultrabeam_keys,
};
use crate::settings_save::{
    access_lines, bool_text, cluster_lines, device_lines, entry_line, float_value, head_lines,
    label_lines, optional_line, pair_lines, pos_lines, position_lines, session_lines, settings_text,
    size_lines, text_or_empty, tuner_lines, window_size_lines,
};

verus! {

/// A value the file can hold as it is: no line break in it and no white
/// space at either end.
pub open spec fn storable(v: Seq<char>) -> bool {
    &&& forall|i: int| 0 <= i < v.len() ==> v[i] != '\n'
    &&& v.len() > 0 ==> !is_white_space(v[0]) && !is_white_space(v.last())
}

/// A key as the file writes it: letters, digits and underscores.
pub open spec fn key_text(k: Seq<char>) -> bool {
    &&& k.len() > 0
    &&& forall|i: int| 0 <= i < k.len() ==> ('a' <= #[trigger] k[i] <= 'z' || '0' <= k[i] <= '9' || k[i] == '_')
}

/// Whether `s` is whole lines: empty, or ending with a line break.
pub open spec fn whole_lines(s: Seq<char>) -> bool {
    s.len() == 0 || s.last() == '\n'
}

/// Text without white space at its ends is left as it is by trimming.
pub proof fn lemma_trim_plain(s: Seq<char>)
    requires
        s.len() > 0 ==> !is_white_space(s[0]) && !is_white_space(s.last()),
    ensures
        trim(s) == s,
{
    assert(trim_start(s) == s);
    assert(trim_end(s) == s);
}

/// Nothing followed by `a` is `a`.
pub proof fn lemma_empty_then<A>(a: Seq<A>)
    ensures
        Seq::<A>::empty() + a == a,
{
    assert(Seq::<A>::empty() + a =~= a);
}

/// Concatenation regrouped: `a + (b + c)` is `a + b + c`.
pub proof fn lemma_regroup<A>(a: Seq<A>, b: Seq<A>, c: Seq<A>)
    ensures
        a + (b + c) == a + b + c,
{
    vstd::seq_lib::lemma_concat_associative(a, b, c);
}

/// Reading no text changes nothing.
pub proof fn lemma_no_lines(st: (SettingsView, FloatList))
    ensures
        apply_lines(st, Seq::empty()) == st,
{
    reveal(apply_lines);
    reveal(apply_line);
    let e = Seq::<char>::empty();
    assert(e.subrange(0, 0) =~= e);
    lemma_trim_plain(e);
}

/// Whole lines followed by more text are read one part after the other.
pub proof fn lemma_lines_then(st: (SettingsView, FloatList), a: Seq<char>, b: Seq<char>)
    requires
        whole_lines(a),
    ensures
        apply_lines(st, a + b) == apply_lines(apply_lines(st, a), b),
    decreases a.len(),
{
    reveal_with_fuel(apply_lines, 2);
    if a.len() == 0 {
        assert(a + b =~= b);
        assert(a =~= Seq::<char>::empty());
        lemma_no_lines(st);
    } else {
        let ab = a + b;
        lemma_index_of_first_props(a, '\n');
        let e = index_of_first(a, '\n');
        if e == a.len() {
            assert(a[a.len() - 1] == '\n');
        }
        assert(e < a.len());
        assert forall|k: int| 0 <= k < e implies ab[k] != '\n' by {
            assert(ab[k] == a[k]);
        }
        assert(ab[e as int] == a[e as int]);
        lemma_index_of_first(ab, '\n', e as int);
        assert(ab.subrange(0, e as int) =~= a.subrange(0, e as int));
        let rest = skip(a, e + 1);
        assert(skip(ab, e + 1) =~= rest + b);
        assert(whole_lines(rest)) by {
            if rest.len() > 0 {
                assert(rest.last() == a.last());
            }
        }
        let next = apply_line(st, a.subrange(0, e as int));
        assert(apply_lines(st, ab) == apply_lines(next, skip(ab, e + 1)));
        assert(apply_lines(st, a) == apply_lines(next, rest));
        lemma_lines_then(next, rest, b);
    }
}

/// One written entry is read as that key and value.
pub proof fn lemma_entry_read(st: (SettingsView, FloatList), k: Seq<char>, v: Seq<char>)
    requires
        key_text(k),
        storable(v),
    ensures
        apply_lines(st, entry_line(k, v)) == apply_entry(st.0, st.1, k, v),
        whole_lines(entry_line(k, v)),
{
    reveal(apply_lines);
    reveal(apply_line);
    reveal_strlit("=");
    reveal_strlit("\n");
    let l = k + "="@ + v;
    let s = entry_line(k, v);
    assert(s =~= l.push('\n'));
    assert forall|i: int| 0 <= i < l.len() implies s[i] != '\n' by {
        if i < k.len() {
            assert(s[i] == k[i]);
        } else if i > k.len() {
            assert(s[i] == v[i - k.len() - 1]);
        }
    }
    lemma_index_of_first(s, '\n', l.len() as int);
    assert(s.subrange(0, l.len() as int) =~= l);
    assert(skip(s, l.len() + 1) =~= Seq::<char>::empty());
    let next = apply_line(st, l);
    lemma_no_lines(next);
    assert(l[0] == k[0]);
    assert(!is_white_space(l.last())) by {
        if v.len() > 0 {
            assert(l.last() == v.last());
        } else {
            assert(l.last() == '=');
        }
    }
    lemma_trim_plain(l);
    assert forall|i: int| 0 <= i < k.len() implies l[i] != '=' by {
        assert(l[i] == k[i]);
    }
    lemma_index_of_first(l, '=', k.len() as int);
    assert(l.subrange(0, k.len() as int) =~= k);
    assert(skip(l, k.len() + 1) =~= v);
    lemma_trim_plain(k);
    lemma_trim_plain(v);
}

/// An entry written after whole lines is read after them.
pub proof fn lemma_entry_after(st: (SettingsView, FloatList), a: Seq<char>, k: Seq<char>, v: Seq<char>)
    requires
        whole_lines(a),
        key_text(k),
        storable(v),
    ensures
        apply_lines(st, a + entry_line(k, v)) == ({
            let s = apply_lines(st, a);
            apply_entry(s.0, s.1, k, v)
        }),
        whole_lines(a + entry_line(k, v)),
{
    lemma_lines_then(st, a, entry_line(k, v));
    lemma_entry_read(apply_lines(st, a), k, v);
    let e = entry_line(k, v);
    assert((a + e).last() == e.last());
}

/// A line written only when its value is there is read as its entry, or
/// not at all.
pub proof fn lemma_optional_after(
    st: (SettingsView, FloatList),
    a: Seq<char>,
    k: Seq<char>,
    value: Option<Seq<char>>,
)
    requires
        whole_lines(a),
        key_text(k),
        value matches Some(v) ==> storable(v),
    ensures
        whole_lines(a + optional_line(k, value)),
        apply_lines(st, a + optional_line(k, value)) == (match value {
            Some(v) => {
                let s = apply_lines(st, a);
                apply_entry(s.0, s.1, k, v)
            },
            None => apply_lines(st, a),
        }),
{
    match value {
        Some(v) => lemma_entry_after(st, a, k, v),
        None => {
            assert(a + optional_line(k, value) =~= a);
        },
    }
}

/// The text of a floating-point setting is storable when all of them are.
pub proof fn lemma_float_value_storable(f: FloatList, s: crate::settings::FloatSetting)
    requires
        floats_round_trip(f),
    ensures
        float_value(f, s) matches Some(v) ==> storable(v),
    decreases f.len(),
{
    if f.len() > 0 && f[0].0 != s {
        assert forall|i: int| 0 <= i < f.drop_first().len() implies storable(#[trigger] f.drop_first()[i].1) by {
            assert(f.drop_first()[i] == f[i + 1]);
        }
        lemma_float_value_storable(f.drop_first(), s);
    }
}

/// Decimal digits are a storable value.
pub proof fn lemma_digits_storable(n: nat)
    ensures
        storable(decimal_digits(n)),
{
    lemma_decimal_digits_value(n);
    let d = decimal_digits(n);
    assert forall|i: int| 0 <= i < d.len() implies d[i] != '\n' by {
        assert(all_digits(d));
    }
}

/// An optional text that reads back as itself: absent, or a storable text
/// that is not empty.
pub open spec fn opt_storable(o: Option<Seq<char>>) -> bool {
    match o {
        Some(t) => t.len() > 0 && storable(t),
        None => true,
    }
}

/// A tuner slot that reads back as itself.
pub open spec fn tuner_round_trips(t: TunerSettingsView) -> bool {
    &&& storable(t.mcp_serial)
    &&& (t.amplitec_pos matches Some(n) ==> 1 <= n <= 6)
}

/// Settings that read back as themselves once saved: every text can stand
/// in a line as it is, optional texts are not empty, the cluster server
/// and callsign are given, the spot expiry is at least a minute and the
/// tuners' antenna positions are 1 to 6.
pub open spec fn round_trips(c: SettingsView) -> bool {
    &&& opt_storable(c.radio.tci_addr)
    &&& opt_storable(c.radio.thetis_path)
    &&& opt_storable(c.radio.yaesu_port)
    &&& opt_storable(c.radio.yaesu_audio_device)
    &&& opt_storable(c.amplitec.port)
    &&& c.amplitec.labels.len() == 6
    &&& forall|i: int| 0 <= i < 6 ==> storable(#[trigger] c.amplitec.labels[i])
    &&& tuner_round_trips(c.tuners.tuner1)
    &&& tuner_round_trips(c.tuners.tuner2)
    &&& opt_storable(c.spe.port)
    &&& opt_storable(c.rf2k.port)
    &&& opt_storable(c.ultrabeam.port)
    &&& opt_storable(c.rotor.port)
    &&& c.cluster.server.len() > 0 && storable(c.cluster.server)
    &&& c.cluster.callsign.len() > 0 && storable(c.cluster.callsign)
    &&& c.cluster.expiry_min >= 1
    &&& opt_storable(c.access.password)
    &&& opt_storable(c.access.totp_secret)
    &&& opt_storable(c.access.friendly_name)
}

/// Every floating-point text can stand in a line as it is.
pub open spec fn floats_round_trip(f: FloatList) -> bool {
    forall|i: int| 0 <= i < f.len() ==> storable(#[trigger] f[i].1)
}

/// The radio-link lines that open the file.
pub open spec fn radio_text(c: SettingsView) -> Seq<char> {
    entry_line("tci"@, text_or_empty(c.radio.tci_addr)) + entry_line("thetis_path"@, text_or_empty(c.radio.thetis_path)) + entry_line("yaesu_port"@, text_or_empty(c.radio.yaesu_port)) + entry_line("yaesu_enabled"@, bool_text(c.radio.yaesu_enabled)) + entry_line("yaesu_baud"@, decimal_digits(c.radio.yaesu_baud as nat)) + entry_line("yaesu_audio"@, text_or_empty(c.radio.yaesu_audio_device))
}


/// The entry of a floating-point setting that has a value.
pub open spec fn opt_float(s: FloatSetting, o: Option<Seq<char>>) -> FloatList {
    match o {
        Some(v) => seq![(s, v)],
        None => Seq::empty(),
    }
}

/// The entries of a tuner slot's two detector voltages that have a value.
pub open spec fn tuner_floats(f: FloatList, slot: usize) -> FloatList {
    opt_float(FloatSetting::TunerThreshold { slot: slot }, float_value(f, FloatSetting::TunerThreshold { slot: slot }))
        + opt_float(
        FloatSetting::TunerHysteresis { slot: slot },
        float_value(f, FloatSetting::TunerHysteresis { slot: slot }),
    )
}

/// The entries of two geometry values of a window, when both are there.
pub open spec fn pair_list(s: (FloatSetting, FloatSetting), x: Option<Seq<char>>, y: Option<Seq<char>>) -> FloatList {
    match (x, y) {
        (Some(a), Some(b)) => seq![(s.0, a), (s.1, b)],
        _ => Seq::empty(),
    }
}

/// The entries of a window's position.
pub open spec fn pos_floats(f: FloatList, w: Window) -> FloatList {
    let s = (FloatSetting::WindowPos { window: w, index: 0 }, FloatSetting::WindowPos { window: w, index: 1 });
    pair_list(s, float_value(f, s.0), float_value(f, s.1))
}

/// The entries of a window's size.
pub open spec fn size_floats(f: FloatList, w: Window) -> FloatList {
    let s = (FloatSetting::WindowSize { window: w, index: 0 }, FloatSetting::WindowSize { window: w, index: 1 });
    pair_list(s, float_value(f, s.0), float_value(f, s.1))
}

/// The window-position entries, in file order.
pub open spec fn position_floats(f: FloatList) -> FloatList {
    pos_floats(f, Window::Tuner) + pos_floats(f, Window::Amplitec) + pos_floats(f, Window::Spe) + pos_floats(
        f,
        Window::Rf2k,
    ) + pos_floats(f, Window::Ultrabeam) + pos_floats(f, Window::Rotor) + pos_floats(f, Window::Main)
}

/// The window-size entries, in file order.
pub open spec fn window_size_floats(f: FloatList) -> FloatList {
    size_floats(f, Window::Main) + size_floats(f, Window::Tuner) + size_floats(f, Window::Amplitec) + size_floats(
        f,
        Window::Spe,
    ) + size_floats(f, Window::Rf2k) + size_floats(f, Window::Ultrabeam) + size_floats(f, Window::Rotor)
}

/// The floating-point entries a saved file holds, in file order: each
/// tuner voltage that has a value, then each window position and size
/// whose two values are both there.
pub open spec fn written_floats(f: FloatList) -> FloatList {
    tuner_floats(f, 0) + tuner_floats(f, 1) + position_floats(f) + window_size_floats(f)
}


/// A window's two geometry lines, when written, are read as its two
/// floating-point entries only.
pub proof fn lemma_pair_read(
    st: (SettingsView, FloatList),
    keys: (Seq<char>, Seq<char>),
    s: (FloatSetting, FloatSetting),
    x: Option<Seq<char>>,
    y: Option<Seq<char>>,
)
    requires
        key_text(keys.0),
        key_text(keys.1),
        x matches Some(v) ==> storable(v),
        y matches Some(v) ==> storable(v),
        forall|c: SettingsView, f: FloatList, v: Seq<char>| #[trigger] apply_entry(c, f, keys.0, v) == (c, f.push((s.0, v))),
        forall|c: SettingsView, f: FloatList, v: Seq<char>| #[trigger] apply_entry(c, f, keys.1, v) == (c, f.push((s.1, v))),
    ensures
        whole_lines(pair_lines(keys, x, y)),
        apply_lines(st, pair_lines(keys, x, y)) == (st.0, st.1 + pair_list(s, x, y)),
{
    match (x, y) {
        (Some(u), Some(w)) => {
            lemma_entry_read(st, keys.0, u);
            let e0 = entry_line(keys.0, u);
            let s1 = apply_lines(st, e0);
            lemma_entry_after(st, e0, keys.1, w);
            assert(apply_entry(st.0, st.1, keys.0, u) == (st.0, st.1.push((s.0, u))));
            assert(apply_entry(s1.0, s1.1, keys.1, w) == (s1.0, s1.1.push((s.1, w))));
            assert(st.1.push((s.0, u)).push((s.1, w)) =~= st.1 + pair_list(s, x, y));
        },
        _ => {
            lemma_no_lines(st);
            assert(st.1 + pair_list(s, x, y) =~= st.1);
        },
    }
}

/// The same, after whole lines.
pub proof fn lemma_pair_after(
    st: (SettingsView, FloatList),
    a: Seq<char>,
    keys: (Seq<char>, Seq<char>),
    s: (FloatSetting, FloatSetting),
    x: Option<Seq<char>>,
    y: Option<Seq<char>>,
)
    requires
        whole_lines(a),
        key_text(keys.0),
        key_text(keys.1),
        x matches Some(v) ==> storable(v),
        y matches Some(v) ==> storable(v),
        forall|c: SettingsView, f: FloatList, v: Seq<char>| #[trigger] apply_entry(c, f, keys.0, v) == (c, f.push((s.0, v))),
        forall|c: SettingsView, f: FloatList, v: Seq<char>| #[trigger] apply_entry(c, f, keys.1, v) == (c, f.push((s.1, v))),
    ensures
        whole_lines(a + pair_lines(keys, x, y)),
        apply_lines(st, a + pair_lines(keys, x, y)) == ({
            let t = apply_lines(st, a);
            (t.0, t.1 + pair_list(s, x, y))
        }),
{
    let p = pair_lines(keys, x, y);
    lemma_lines_then(st, a, p);
    lemma_pair_read(apply_lines(st, a), keys, s, x, y);
    if p.len() == 0 {
        assert(a + p =~= a);
    } else {
        assert((a + p).last() == p.last());
    }
}

/// The radio-link lines are read back into the radio-link settings.
pub proof fn lemma_radio_read(st: (SettingsView, FloatList), c: SettingsView)
    requires
        round_trips(c),
    ensures
        whole_lines(radio_text(c)),
        apply_lines(st, radio_text(c)).0 == (SettingsView { radio: RadioView { spectrum_enabled: st.0.radio.spectrum_enabled, ..c.radio }, ..st.0 }),
        apply_lines(st, radio_text(c)).1 == st.1,
{
    reveal_strlit("tci");
    reveal_strlit("thetis_path");
    reveal_strlit("yaesu_port");
    reveal_strlit("yaesu_enabled");
    reveal_strlit("yaesu_baud");
    reveal_strlit("yaesu_audio");
    reveal_strlit("true");
    reveal_strlit("false");
    lemma_digits_storable(c.radio.yaesu_baud as nat);
    lemma_parse_decimal_digits(c.radio.yaesu_baud as nat, u32::MAX as int);
    let ghost s1 = st;
    lemma_entry_read(st, "tci"@, text_or_empty(c.radio.tci_addr));
    let ghost p2 = entry_line("tci"@, text_or_empty(c.radio.tci_addr));
    lemma_radio_keys(s1.0, s1.1, text_or_empty(c.radio.tci_addr));
    let ghost s3 = apply_lines(st, p2);
    lemma_entry_after(st, p2, "thetis_path"@, text_or_empty(c.radio.thetis_path));
    let ghost p4 = p2 + entry_line("thetis_path"@, text_or_empty(c.radio.thetis_path));
    lemma_radio_keys(s3.0, s3.1, text_or_empty(c.radio.thetis_path));
    let ghost s5 = apply_lines(st, p4);
    lemma_entry_after(st, p4, "yaesu_port"@, text_or_empty(c.radio.yaesu_port));
    let ghost p6 = p4 + entry_line("yaesu_port"@, text_or_empty(c.radio.yaesu_port));
    lemma_radio_keys(s5.0, s5.1, text_or_empty(c.radio.yaesu_port));
    let ghost s7 = apply_lines(st, p6);
    lemma_entry_after(st, p6, "yaesu_enabled"@, bool_text(c.radio.yaesu_enabled));
    let ghost p8 = p6 + entry_line("yaesu_enabled"@, bool_text(c.radio.yaesu_enabled));
    lemma_radio_keys(s7.0, s7.1, bool_text(c.radio.yaesu_enabled));
    let ghost s9 = apply_lines(st, p8);
    lemma_entry_after(st, p8, "yaesu_baud"@, decimal_digits(c.radio.yaesu_baud as nat));
    let ghost p10 = p8 + entry_line("yaesu_baud"@, decimal_digits(c.radio.yaesu_baud as nat));
    lemma_radio_keys(s9.0, s9.1, decimal_digits(c.radio.yaesu_baud as nat));
    let ghost s11 = apply_lines(st, p10);
    lemma_entry_after(st, p10, "yaesu_audio"@, text_or_empty(c.radio.yaesu_audio_device));
    let ghost p12 = p10 + entry_line("yaesu_audio"@, text_or_empty(c.radio.yaesu_audio_device));
    lemma_radio_keys(s11.0, s11.1, text_or_empty(c.radio.yaesu_audio_device));
    assert(p12 == radio_text(c));
}

/// The switch lines after whole lines are read back into the switch settings.
pub proof fn lemma_switch_read(st: (SettingsView, FloatList), pre: Seq<char>, c: SettingsView)
    requires
        whole_lines(pre),
        round_trips(c),
    ensures
        whole_lines(pre + entry_line("amplitec_port"@, text_or_empty(c.amplitec.port)) + entry_line("amplitec_enabled"@, bool_text(c.amplitec.enabled)) + entry_line("amplitec_window"@, bool_text(c.amplitec.show_window)) + entry_line("tuner_window"@, bool_text(c.tuners.show_window))),
        apply_lines(st, pre + entry_line("amplitec_port"@, text_or_empty(c.amplitec.port)) + entry_line("amplitec_enabled"@, bool_text(c.amplitec.enabled)) + entry_line("amplitec_window"@, bool_text(c.amplitec.show_window)) + entry_line("tuner_window"@, bool_text(c.tuners.show_window))).0 == ({ let s = apply_lines(st, pre).0; SettingsView { amplitec: AmplitecView { labels: s.amplitec.labels, ..c.amplitec }, tuners: TunerSlotsView { show_window: c.tuners.show_window, ..s.tuners }, ..s } }),
        apply_lines(st, pre + entry_line("amplitec_port"@, text_or_empty(c.amplitec.port)) + entry_line("amplitec_enabled"@, bool_text(c.amplitec.enabled)) + entry_line("amplitec_window"@, bool_text(c.amplitec.show_window)) + entry_line("tuner_window"@, bool_text(c.tuners.show_window))).1 == apply_lines(st, pre).1,
{
    reveal_strlit("amplitec_port");
    reveal_strlit("amplitec_enabled");
    reveal_strlit("amplitec_window");
    reveal_strlit("tuner_window");
    reveal_strlit("true");
    reveal_strlit("false");
    let ghost s1 = apply_lines(st, pre);
    lemma_entry_after(st, pre, "amplitec_port"@, text_or_empty(c.amplitec.port));
    let ghost p2 = pre + entry_line("amplitec_port"@, text_or_empty(c.amplitec.port));
    lemma_switch_keys(s1.0, s1.1, text_or_empty(c.amplitec.port));
    let ghost s3 = apply_lines(st, p2);
    lemma_entry_after(st, p2, "amplitec_enabled"@, bool_text(c.amplitec.enabled));
    let ghost p4 = p2 + entry_line("amplitec_enabled"@, bool_text(c.amplitec.enabled));
    lemma_switch_keys(s3.0, s3.1, bool_text(c.amplitec.enabled));
    let ghost s5 = apply_lines(st, p4);
    lemma_entry_after(st, p4, "amplitec_window"@, bool_text(c.amplitec.show_window));
    let ghost p6 = p4 + entry_line("amplitec_window"@, bool_text(c.amplitec.show_window));
    lemma_switch_keys(s5.0, s5.1, bool_text(c.amplitec.show_window));
    let ghost s7 = apply_lines(st, p6);
    lemma_entry_after(st, p6, "tuner_window"@, bool_text(c.tuners.show_window));
    let ghost p8 = p6 + entry_line("tuner_window"@, bool_text(c.tuners.show_window));
    lemma_switch_keys(s7.0, s7.1, bool_text(c.tuners.show_window));
    assert(p8 == pre + entry_line("amplitec_port"@, text_or_empty(c.amplitec.port)) + entry_line("amplitec_enabled"@, bool_text(c.amplitec.enabled)) + entry_line("amplitec_window"@, bool_text(c.amplitec.show_window)) + entry_line("tuner_window"@, bool_text(c.tuners.show_window)));
}

/// The spe lines after whole lines are read back into its settings.
pub proof fn lemma_spe_read(st: (SettingsView, FloatList), pre: Seq<char>, c: SettingsView)
    requires
        whole_lines(pre),
        round_trips(c),
    ensures
        whole_lines(pre + device_lines(("spe_port"@, "spe_enabled"@, "spe_window"@), c.spe)),
        apply_lines(st, pre + device_lines(("spe_port"@, "spe_enabled"@, "spe_window"@), c.spe)).0 == (SettingsView { spe: c.spe, ..apply_lines(st, pre).0 }),
        apply_lines(st, pre + device_lines(("spe_port"@, "spe_enabled"@, "spe_window"@), c.spe)).1 == apply_lines(st, pre).1,
{
    reveal_strlit("spe_port");
    reveal_strlit("spe_enabled");
    reveal_strlit("spe_window");
    reveal_strlit("true");
    reveal_strlit("false");
    lemma_lines_then(st, pre, device_lines(("spe_port"@, "spe_enabled"@, "spe_window"@), c.spe));
    let ghost t = apply_lines(st, pre);
    let ghost s1 = t;
    lemma_entry_read(t, "spe_port"@, text_or_empty(c.spe.port));
    let ghost p2 = entry_line("spe_port"@, text_or_empty(c.spe.port));
    lemma_spe_keys(s1.0, s1.1, text_or_empty(c.spe.port));
    let ghost s3 = apply_lines(t, p2);
    lemma_entry_after(t, p2, "spe_enabled"@, bool_text(c.spe.enabled));
    let ghost p4 = p2 + entry_line("spe_enabled"@, bool_text(c.spe.enabled));
    lemma_spe_keys(s3.0, s3.1, bool_text(c.spe.enabled));
    let ghost s5 = apply_lines(t, p4);
    lemma_entry_after(t, p4, "spe_window"@, bool_text(c.spe.show_window));
    let ghost p6 = p4 + entry_line("spe_window"@, bool_text(c.spe.show_window));
    lemma_spe_keys(s5.0, s5.1, bool_text(c.spe.show_window));
    assert(p6 == device_lines(("spe_port"@, "spe_enabled"@, "spe_window"@), c.spe));
    assert((pre + device_lines(("spe_port"@, "spe_enabled"@, "spe_window"@), c.spe)).last() == device_lines(("spe_port"@, "spe_enabled"@, "spe_window"@), c.spe).last());
}

/// The rf2k lines after whole lines are read back into its settings.
pub proof fn lemma_rf2k_read(st: (SettingsView, FloatList), pre: Seq<char>, c: SettingsView)
    requires
        whole_lines(pre),
        round_trips(c),
    ensures
        whole_lines(pre + device_lines(("rf2k_addr"@, "rf2k_enabled"@, "rf2k_window"@), c.rf2k)),
        apply_lines(st, pre + device_lines(("rf2k_addr"@, "rf2k_enabled"@, "rf2k_window"@), c.rf2k)).0 == (SettingsView { rf2k: c.rf2k, ..apply_lines(st, pre).0 }),
        apply_lines(st, pre + device_lines(("rf2k_addr"@, "rf2k_enabled"@, "rf2k_window"@), c.rf2k)).1 == apply_lines(st, pre).1,
{
    reveal_strlit("rf2k_addr");
    reveal_strlit("rf2k_enabled");
    reveal_strlit("rf2k_window");
    reveal_strlit("true");
    reveal_strlit("false");
    lemma_lines_then(st, pre, device_lines(("rf2k_addr"@, "rf2k_enabled"@, "rf2k_window"@), c.rf2k));
    let ghost t = apply_lines(st, pre);
    let ghost s1 = t;
    lemma_entry_read(t, "rf2k_addr"@, text_or_empty(c.rf2k.port));
    let ghost p2 = entry_line("rf2k_addr"@, text_or_empty(c.rf2k.port));
    lemma_rf2k_keys(s1.0, s1.1, text_or_empty(c.rf2k.port));
    let ghost s3 = apply_lines(t, p2);
    lemma_entry_after(t, p2, "rf2k_enabled"@, bool_text(c.rf2k.enabled));
    let ghost p4 = p2 + entry_line("rf2k_enabled"@, bool_text(c.rf2k.enabled));
    lemma_rf2k_keys(s3.0, s3.1, bool_text(c.rf2k.enabled));
    let ghost s5 = apply_lines(t, p4);
    lemma_entry_after(t, p4, "rf2k_window"@, bool_text(c.rf2k.show_window));
    let ghost p6 = p4 + entry_line("rf2k_window"@, bool_text(c.rf2k.show_window));
    lemma_rf2k_keys(s5.0, s5.1, bool_text(c.rf2k.show_window));
    assert(p6 == device_lines(("rf2k_addr"@, "rf2k_enabled"@, "rf2k_window"@), c.rf2k));
    assert((pre + device_lines(("rf2k_addr"@, "rf2k_enabled"@, "rf2k_window"@), c.rf2k)).last() == device_lines(("rf2k_addr"@, "rf2k_enabled"@, "rf2k_window"@), c.rf2k).last());
}

/// The ultrabeam lines after whole lines are read back into its settings.
pub proof fn lemma_ultrabeam_read(st: (SettingsView, FloatList), pre: Seq<char>, c: SettingsView)
    requires
        whole_lines(pre),
        round_trips(c),
    ensures
        whole_lines(pre + device_lines(("ultrabeam_port"@, "ultrabeam_enabled"@, "ultrabeam_window"@), c.ultrabeam)),
        apply_lines(st, pre + device_lines(("ultrabeam_port"@, "ultrabeam_enabled"@, "ultrabeam_window"@), c.ultrabeam)).0 == (SettingsView { ultrabeam: c.ultrabeam, ..apply_lines(st, pre).0 }),
        apply_lines(st, pre + device_lines(("ultrabeam_port"@, "ultrabeam_enabled"@, "ultrabeam_window"@), c.ultrabeam)).1 == apply_lines(st, pre).1,
{
    reveal_strlit("ultrabeam_port");
    reveal_strlit("ultrabeam_enabled");
    reveal_strlit("ultrabeam_window");
    reveal_strlit("true");
    reveal_strlit("false");
    lemma_lines_then(st, pre, device_lines(("ultrabeam_port"@, "ultrabeam_enabled"@, "ultrabeam_window"@), c.ultrabeam));
    let ghost t = apply_lines(st, pre);
    let ghost s1 = t;
    lemma_entry_read(t, "ultrabeam_port"@, text_or_empty(c.ultrabeam.port));
    let ghost p2 = entry_line("ultrabeam_port"@, text_or_empty(c.ultrabeam.port));
    lemma_ultrabeam_keys(s1.0, s1.1, text_or_empty(c.ultrabeam.port));
    let ghost s3 = apply_lines(t, p2);
    lemma_entry_after(t, p2, "ultrabeam_enabled"@, bool_text(c.ultrabeam.enabled));
    let ghost p4 = p2 + entry_line("ultrabeam_enabled"@, bool_text(c.ultrabeam.enabled));
    lemma_ultrabeam_keys(s3.0, s3.1, bool_text(c.ultrabeam.enabled));
    let ghost s5 = apply_lines(t, p4);
    lemma_entry_after(t, p4, "ultrabeam_window"@, bool_text(c.ultrabeam.show_window));
    let ghost p6 = p4 + entry_line("ultrabeam_window"@, bool_text(c.ultrabeam.show_window));
    lemma_ultrabeam_keys(s5.0, s5.1, bool_text(c.ultrabeam.show_window));
    assert(p6 == device_lines(("ultrabeam_port"@, "ultrabeam_enabled"@, "ultrabeam_window"@), c.ultrabeam));
    assert((pre + device_lines(("ultrabeam_port"@, "ultrabeam_enabled"@, "ultrabeam_window"@), c.ultrabeam)).last() == device_lines(("ultrabeam_port"@, "ultrabeam_enabled"@, "ultrabeam_window"@), c.ultrabeam).last());
}

/// The rotor lines after whole lines are read back into its settings.
pub proof fn lemma_rotor_read(st: (SettingsView, FloatList), pre: Seq<char>, c: SettingsView)
    requires
        whole_lines(pre),
        round_trips(c),
    ensures
        whole_lines(pre + device_lines(("rotor_addr"@, "rotor_enabled"@, "rotor_window"@), c.rotor)),
        apply_lines(st, pre + device_lines(("rotor_addr"@, "rotor_enabled"@, "rotor_window"@), c.rotor)).0 == (SettingsView { rotor: c.rotor, ..apply_lines(st, pre).0 }),
        apply_lines(st, pre + device_lines(("rotor_addr"@, "rotor_enabled"@, "rotor_window"@), c.rotor)).1 == apply_lines(st, pre).1,
{
    reveal_strlit("rotor_addr");
    reveal_strlit("rotor_enabled");
    reveal_strlit("rotor_window");
    reveal_strlit("true");
    reveal_strlit("false");
    lemma_lines_then(st, pre, device_lines(("rotor_addr"@, "rotor_enabled"@, "rotor_window"@), c.rotor));
    let ghost t = apply_lines(st, pre);
    let ghost s1 = t;
    lemma_entry_read(t, "rotor_addr"@, text_or_empty(c.rotor.port));
    let ghost p2 = entry_line("rotor_addr"@, text_or_empty(c.rotor.port));
    lemma_rotor_keys(s1.0, s1.1, text_or_empty(c.rotor.port));
    let ghost s3 = apply_lines(t, p2);
    lemma_entry_after(t, p2, "rotor_enabled"@, bool_text(c.rotor.enabled));
    let ghost p4 = p2 + entry_line("rotor_enabled"@, bool_text(c.rotor.enabled));
    lemma_rotor_keys(s3.0, s3.1, bool_text(c.rotor.enabled));
    let ghost s5 = apply_lines(t, p4);
    lemma_entry_after(t, p4, "rotor_window"@, bool_text(c.rotor.show_window));
    let ghost p6 = p4 + entry_line("rotor_window"@, bool_text(c.rotor.show_window));
    lemma_rotor_keys(s5.0, s5.1, bool_text(c.rotor.show_window));
    assert(p6 == device_lines(("rotor_addr"@, "rotor_enabled"@, "rotor_window"@), c.rotor));
    assert((pre + device_lines(("rotor_addr"@, "rotor_enabled"@, "rotor_window"@), c.rotor)).last() == device_lines(("rotor_addr"@, "rotor_enabled"@, "rotor_window"@), c.rotor).last());
}

/// The opening block is read back into the link, switch and device settings.
pub proof fn lemma_head_read(st: (SettingsView, FloatList), c: SettingsView)
    requires
        round_trips(c),
    ensures
        whole_lines(head_lines(c)),
        apply_lines(st, head_lines(c)).0 == (SettingsView {
            radio: RadioView { spectrum_enabled: st.0.radio.spectrum_enabled, ..c.radio },
            amplitec: AmplitecView { labels: st.0.amplitec.labels, ..c.amplitec },
            tuners: TunerSlotsView { show_window: c.tuners.show_window, ..st.0.tuners },
            spe: c.spe,
            rf2k: c.rf2k,
            ultrabeam: c.ultrabeam,
            rotor: c.rotor,
            ..st.0
        }),
        apply_lines(st, head_lines(c)).1 == st.1,
{
    lemma_radio_read(st, c);
    let ghost p6 = radio_text(c);
    lemma_switch_read(st, p6, c);
    let ghost p10 = p6 + entry_line("amplitec_port"@, text_or_empty(c.amplitec.port)) + entry_line("amplitec_enabled"@, bool_text(c.amplitec.enabled)) + entry_line("amplitec_window"@, bool_text(c.amplitec.show_window)) + entry_line("tuner_window"@, bool_text(c.tuners.show_window));
    lemma_spe_read(st, p10, c);
    let ghost q0 = p10 + device_lines(("spe_port"@, "spe_enabled"@, "spe_window"@), c.spe);
    lemma_rf2k_read(st, q0, c);
    let ghost q1 = q0 + device_lines(("rf2k_addr"@, "rf2k_enabled"@, "rf2k_window"@), c.rf2k);
    lemma_ultrabeam_read(st, q1, c);
    let ghost q2 = q1 + device_lines(("ultrabeam_port"@, "ultrabeam_enabled"@, "ultrabeam_window"@), c.ultrabeam);
    lemma_rotor_read(st, q2, c);
    let ghost q3 = q2 + device_lines(("rotor_addr"@, "rotor_enabled"@, "rotor_window"@), c.rotor);
    assert(q3 == head_lines(c));
}

/// The lines of tuner slot 1 after whole lines are read back into the slot.
pub proof fn lemma_tuner1_read(st: (SettingsView, FloatList), pre: Seq<char>, c: SettingsView, f: FloatList)
    requires
        whole_lines(pre),
        round_trips(c),
        floats_round_trip(f),
    ensures
        whole_lines(pre + tuner_lines(("tuner1_enabled"@, "tuner1_model"@, "tuner1_mcp_serial"@, "tuner1_amplitec_pos"@, "tuner1_threshold_v"@, "tuner1_hysteresis_v"@), c.tuners.tuner1, f, 0)),
        apply_lines(st, pre + tuner_lines(("tuner1_enabled"@, "tuner1_model"@, "tuner1_mcp_serial"@, "tuner1_amplitec_pos"@, "tuner1_threshold_v"@, "tuner1_hysteresis_v"@), c.tuners.tuner1, f, 0)).0 == ({ let s = apply_lines(st, pre).0; SettingsView { tuners: TunerSlotsView { tuner1: c.tuners.tuner1, ..s.tuners }, ..s } }),
        apply_lines(st, pre + tuner_lines(("tuner1_enabled"@, "tuner1_model"@, "tuner1_mcp_serial"@, "tuner1_amplitec_pos"@, "tuner1_threshold_v"@, "tuner1_hysteresis_v"@), c.tuners.tuner1, f, 0)).1 == apply_lines(st, pre).1 + tuner_floats(f, 0),
{
    reveal_strlit("tuner1_enabled");
    reveal_strlit("tuner1_model");
    reveal_strlit("tuner1_mcp_serial");
    reveal_strlit("tuner1_amplitec_pos");
    reveal_strlit("tuner1_threshold_v");
    reveal_strlit("tuner1_hysteresis_v");
    reveal_strlit("true");
    reveal_strlit("false");
    reveal_strlit("jc-4s");
    reveal_strlit("jc-3s");
    lemma_tuner_model_roundtrip(c.tuners.tuner1.model);
    if let Some(n) = c.tuners.tuner1.amplitec_pos {
        lemma_digits_storable(n as nat);
        lemma_parse_decimal_digits(n as nat, 255);
    }
    lemma_float_value_storable(f, FloatSetting::TunerThreshold { slot: 0 });
    lemma_float_value_storable(f, FloatSetting::TunerHysteresis { slot: 0 });
    lemma_lines_then(st, pre, tuner_lines(("tuner1_enabled"@, "tuner1_model"@, "tuner1_mcp_serial"@, "tuner1_amplitec_pos"@, "tuner1_threshold_v"@, "tuner1_hysteresis_v"@), c.tuners.tuner1, f, 0));
    let ghost t = apply_lines(st, pre);
    let ghost s1 = t;
    lemma_entry_read(t, "tuner1_enabled"@, bool_text(c.tuners.tuner1.enabled));
    let ghost p2 = entry_line("tuner1_enabled"@, bool_text(c.tuners.tuner1.enabled));
    lemma_tuner1_keys(s1.0, s1.1, bool_text(c.tuners.tuner1.enabled));
    let ghost s3 = apply_lines(t, p2);
    lemma_entry_after(t, p2, "tuner1_model"@, c.tuners.tuner1.model.spec_as_str());
    let ghost p4 = p2 + entry_line("tuner1_model"@, c.tuners.tuner1.model.spec_as_str());
    lemma_tuner1_keys(s3.0, s3.1, c.tuners.tuner1.model.spec_as_str());
    let ghost s5 = apply_lines(t, p4);
    lemma_entry_after(t, p4, "tuner1_mcp_serial"@, c.tuners.tuner1.mcp_serial);
    let ghost p6 = p4 + entry_line("tuner1_mcp_serial"@, c.tuners.tuner1.mcp_serial);
    lemma_tuner1_keys(s5.0, s5.1, c.tuners.tuner1.mcp_serial);
    let ghost s7 = apply_lines(t, p6);
    lemma_entry_after(t, p6, "tuner1_amplitec_pos"@, (match c.tuners.tuner1.amplitec_pos { Some(n) => decimal_digits(n as nat), None => Seq::empty() }));
    let ghost p8 = p6 + entry_line("tuner1_amplitec_pos"@, (match c.tuners.tuner1.amplitec_pos { Some(n) => decimal_digits(n as nat), None => Seq::empty() }));
    lemma_tuner1_keys(s7.0, s7.1, (match c.tuners.tuner1.amplitec_pos { Some(n) => decimal_digits(n as nat), None => Seq::empty() }));
    let ghost s9 = apply_lines(t, p8);
    lemma_optional_after(t, p8, "tuner1_threshold_v"@, float_value(f, FloatSetting::TunerThreshold { slot: 0 }));
    if let Some(x) = float_value(f, FloatSetting::TunerThreshold { slot: 0 }) {
        lemma_tuner1_keys(s9.0, s9.1, x);
    }
    let ghost p10 = p8 + optional_line("tuner1_threshold_v"@, float_value(f, FloatSetting::TunerThreshold { slot: 0 }));
    let ghost s11 = apply_lines(t, p10);
    lemma_optional_after(t, p10, "tuner1_hysteresis_v"@, float_value(f, FloatSetting::TunerHysteresis { slot: 0 }));
    if let Some(x) = float_value(f, FloatSetting::TunerHysteresis { slot: 0 }) {
        lemma_tuner1_keys(s11.0, s11.1, x);
    }
    let ghost p12 = p10 + optional_line("tuner1_hysteresis_v"@, float_value(f, FloatSetting::TunerHysteresis { slot: 0 }));
    lemma_regroup(t.1, opt_float(FloatSetting::TunerThreshold { slot: 0 }, float_value(f, FloatSetting::TunerThreshold { slot: 0 })), opt_float(FloatSetting::TunerHysteresis { slot: 0 }, float_value(f, FloatSetting::TunerHysteresis { slot: 0 })));
    assert(apply_lines(t, p10).1 =~= t.1 + opt_float(FloatSetting::TunerThreshold { slot: 0 }, float_value(f, FloatSetting::TunerThreshold { slot: 0 })));
    assert(apply_lines(t, p12).1 =~= t.1 + opt_float(FloatSetting::TunerThreshold { slot: 0 }, float_value(f, FloatSetting::TunerThreshold { slot: 0 })) + opt_float(FloatSetting::TunerHysteresis { slot: 0 }, float_value(f, FloatSetting::TunerHysteresis { slot: 0 })));
    assert(p12 == tuner_lines(("tuner1_enabled"@, "tuner1_model"@, "tuner1_mcp_serial"@, "tuner1_amplitec_pos"@, "tuner1_threshold_v"@, "tuner1_hysteresis_v"@), c.tuners.tuner1, f, 0));
    assert((pre + tuner_lines(("tuner1_enabled"@, "tuner1_model"@, "tuner1_mcp_serial"@, "tuner1_amplitec_pos"@, "tuner1_threshold_v"@, "tuner1_hysteresis_v"@), c.tuners.tuner1, f, 0)).last() == tuner_lines(("tuner1_enabled"@, "tuner1_model"@, "tuner1_mcp_serial"@, "tuner1_amplitec_pos"@, "tuner1_threshold_v"@, "tuner1_hysteresis_v"@), c.tuners.tuner1, f, 0).last());
}

/// The lines of tuner slot 2 after whole lines are read back into the slot.
pub proof fn lemma_tuner2_read(st: (SettingsView, FloatList), pre: Seq<char>, c: SettingsView, f: FloatList)
    requires
        whole_lines(pre),
        round_trips(c),
        floats_round_trip(f),
    ensures
        whole_lines(pre + tuner_lines(("tuner2_enabled"@, "tuner2_model"@, "tuner2_mcp_serial"@, "tuner2_amplitec_pos"@, "tuner2_threshold_v"@, "tuner2_hysteresis_v"@), c.tuners.tuner2, f, 1)),
        apply_lines(st, pre + tuner_lines(("tuner2_enabled"@, "tuner2_model"@, "tuner2_mcp_serial"@, "tuner2_amplitec_pos"@, "tuner2_threshold_v"@, "tuner2_hysteresis_v"@), c.tuners.tuner2, f, 1)).0 == ({ let s = apply_lines(st, pre).0; SettingsView { tuners: TunerSlotsView { tuner2: c.tuners.tuner2, ..s.tuners }, ..s } }),
        apply_lines(st, pre + tuner_lines(("tuner2_enabled"@, "tuner2_model"@, "tuner2_mcp_serial"@, "tuner2_amplitec_pos"@, "tuner2_threshold_v"@, "tuner2_hysteresis_v"@), c.tuners.tuner2, f, 1)).1 == apply_lines(st, pre).1 + tuner_floats(f, 1),
{
    reveal_strlit("tuner2_enabled");
    reveal_strlit("tuner2_model");
    reveal_strlit("tuner2_mcp_serial");
    reveal_strlit("tuner2_amplitec_pos");
    reveal_strlit("tuner2_threshold_v");
    reveal_strlit("tuner2_hysteresis_v");
    reveal_strlit("true");
    reveal_strlit("false");
    reveal_strlit("jc-4s");
    reveal_strlit("jc-3s");
    lemma_tuner_model_roundtrip(c.tuners.tuner2.model);
    if let Some(n) = c.tuners.tuner2.amplitec_pos {
        lemma_digits_storable(n as nat);
        lemma_parse_decimal_digits(n as nat, 255);
    }
    lemma_float_value_storable(f, FloatSetting::TunerThreshold { slot: 1 });
    lemma_float_value_storable(f, FloatSetting::TunerHysteresis { slot: 1 });
    lemma_lines_then(st, pre, tuner_lines(("tuner2_enabled"@, "tuner2_model"@, "tuner2_mcp_serial"@, "tuner2_amplitec_pos"@, "tuner2_threshold_v"@, "tuner2_hysteresis_v"@), c.tuners.tuner2, f, 1));
    let ghost t = apply_lines(st, pre);
    let ghost s1 = t;
    lemma_entry_read(t, "tuner2_enabled"@, bool_text(c.tuners.tuner2.enabled));
    let ghost p2 = entry_line("tuner2_enabled"@, bool_text(c.tuners.tuner2.enabled));
    lemma_tuner2_keys(s1.0, s1.1, bool_text(c.tuners.tuner2.enabled));
    let ghost s3 = apply_lines(t, p2);
    lemma_entry_after(t, p2, "tuner2_model"@, c.tuners.tuner2.model.spec_as_str());
    let ghost p4 = p2 + entry_line("tuner2_model"@, c.tuners.tuner2.model.spec_as_str());
    lemma_tuner2_keys(s3.0, s3.1, c.tuners.tuner2.model.spec_as_str());
    let ghost s5 = apply_lines(t, p4);
    lemma_entry_after(t, p4, "tuner2_mcp_serial"@, c.tuners.tuner2.mcp_serial);
    let ghost p6 = p4 + entry_line("tuner2_mcp_serial"@, c.tuners.tuner2.mcp_serial);
    lemma_tuner2_keys(s5.0, s5.1, c.tuners.tuner2.mcp_serial);
    let ghost s7 = apply_lines(t, p6);
    lemma_entry_after(t, p6, "tuner2_amplitec_pos"@, (match c.tuners.tuner2.amplitec_pos { Some(n) => decimal_digits(n as nat), None => Seq::empty() }));
    let ghost p8 = p6 + entry_line("tuner2_amplitec_pos"@, (match c.tuners.tuner2.amplitec_pos { Some(n) => decimal_digits(n as nat), None => Seq::empty() }));
    lemma_tuner2_keys(s7.0, s7.1, (match c.tuners.tuner2.amplitec_pos { Some(n) => decimal_digits(n as nat), None => Seq::empty() }));
    let ghost s9 = apply_lines(t, p8);
    lemma_optional_after(t, p8, "tuner2_threshold_v"@, float_value(f, FloatSetting::TunerThreshold { slot: 1 }));
    if let Some(x) = float_value(f, FloatSetting::TunerThreshold { slot: 1 }) {
        lemma_tuner2_keys(s9.0, s9.1, x);
    }
    let ghost p10 = p8 + optional_line("tuner2_threshold_v"@, float_value(f, FloatSetting::TunerThreshold { slot: 1 }));
    let ghost s11 = apply_lines(t, p10);
    lemma_optional_after(t, p10, "tuner2_hysteresis_v"@, float_value(f, FloatSetting::TunerHysteresis { slot: 1 }));
    if let Some(x) = float_value(f, FloatSetting::TunerHysteresis { slot: 1 }) {
        lemma_tuner2_keys(s11.0, s11.1, x);
    }
    let ghost p12 = p10 + optional_line("tuner2_hysteresis_v"@, float_value(f, FloatSetting::TunerHysteresis { slot: 1 }));
    lemma_regroup(t.1, opt_float(FloatSetting::TunerThreshold { slot: 1 }, float_value(f, FloatSetting::TunerThreshold { slot: 1 })), opt_float(FloatSetting::TunerHysteresis { slot: 1 }, float_value(f, FloatSetting::TunerHysteresis { slot: 1 })));
    assert(apply_lines(t, p10).1 =~= t.1 + opt_float(FloatSetting::TunerThreshold { slot: 1 }, float_value(f, FloatSetting::TunerThreshold { slot: 1 })));
    assert(apply_lines(t, p12).1 =~= t.1 + opt_float(FloatSetting::TunerThreshold { slot: 1 }, float_value(f, FloatSetting::TunerThreshold { slot: 1 })) + opt_float(FloatSetting::TunerHysteresis { slot: 1 }, float_value(f, FloatSetting::TunerHysteresis { slot: 1 })));
    assert(p12 == tuner_lines(("tuner2_enabled"@, "tuner2_model"@, "tuner2_mcp_serial"@, "tuner2_amplitec_pos"@, "tuner2_threshold_v"@, "tuner2_hysteresis_v"@), c.tuners.tuner2, f, 1));
    assert((pre + tuner_lines(("tuner2_enabled"@, "tuner2_model"@, "tuner2_mcp_serial"@, "tuner2_amplitec_pos"@, "tuner2_threshold_v"@, "tuner2_hysteresis_v"@), c.tuners.tuner2, f, 1)).last() == tuner_lines(("tuner2_enabled"@, "tuner2_model"@, "tuner2_mcp_serial"@, "tuner2_amplitec_pos"@, "tuner2_threshold_v"@, "tuner2_hysteresis_v"@), c.tuners.tuner2, f, 1).last());
}

/// The label lines after whole lines are read back into the labels.
pub proof fn lemma_labels_read(st: (SettingsView, FloatList), pre: Seq<char>, c: SettingsView)
    requires
        whole_lines(pre),
        round_trips(c),
        apply_lines(st, pre).0.amplitec.labels.len() == 6,
    ensures
        whole_lines(pre + label_lines(c.amplitec.labels)),
        apply_lines(st, pre + label_lines(c.amplitec.labels)).0 == ({ let s = apply_lines(st, pre).0; SettingsView { amplitec: AmplitecView { labels: c.amplitec.labels, ..s.amplitec }, ..s } }),
        apply_lines(st, pre + label_lines(c.amplitec.labels)).1 == apply_lines(st, pre).1,
{
    reveal_strlit("amplitec_label1");
    reveal_strlit("amplitec_label2");
    reveal_strlit("amplitec_label3");
    reveal_strlit("amplitec_label4");
    reveal_strlit("amplitec_label5");
    reveal_strlit("amplitec_label6");
    reveal_strlit("true");
    reveal_strlit("false");
    lemma_lines_then(st, pre, label_lines(c.amplitec.labels));
    let ghost t = apply_lines(st, pre);
    let ghost s1 = t;
    lemma_entry_read(t, "amplitec_label1"@, c.amplitec.labels[0]);
    let ghost p2 = entry_line("amplitec_label1"@, c.amplitec.labels[0]);
    lemma_label_keys(s1.0, s1.1, c.amplitec.labels[0]);
    let ghost s3 = apply_lines(t, p2);
    lemma_entry_after(t, p2, "amplitec_label2"@, c.amplitec.labels[1]);
    let ghost p4 = p2 + entry_line("amplitec_label2"@, c.amplitec.labels[1]);
    lemma_label_keys(s3.0, s3.1, c.amplitec.labels[1]);
    let ghost s5 = apply_lines(t, p4);
    lemma_entry_after(t, p4, "amplitec_label3"@, c.amplitec.labels[2]);
    let ghost p6 = p4 + entry_line("amplitec_label3"@, c.amplitec.labels[2]);
    lemma_label_keys(s5.0, s5.1, c.amplitec.labels[2]);
    let ghost s7 = apply_lines(t, p6);
    lemma_entry_after(t, p6, "amplitec_label4"@, c.amplitec.labels[3]);
    let ghost p8 = p6 + entry_line("amplitec_label4"@, c.amplitec.labels[3]);
    lemma_label_keys(s7.0, s7.1, c.amplitec.labels[3]);
    let ghost s9 = apply_lines(t, p8);
    lemma_entry_after(t, p8, "amplitec_label5"@, c.amplitec.labels[4]);
    let ghost p10 = p8 + entry_line("amplitec_label5"@, c.amplitec.labels[4]);
    lemma_label_keys(s9.0, s9.1, c.amplitec.labels[4]);
    let ghost s11 = apply_lines(t, p10);
    lemma_entry_after(t, p10, "amplitec_label6"@, c.amplitec.labels[5]);
    let ghost p12 = p10 + entry_line("amplitec_label6"@, c.amplitec.labels[5]);
    lemma_label_keys(s11.0, s11.1, c.amplitec.labels[5]);
    assert(p12 == label_lines(c.amplitec.labels));
    assert((pre + label_lines(c.amplitec.labels)).last() == label_lines(c.amplitec.labels).last());
    assert(apply_lines(t, label_lines(c.amplitec.labels)).0.amplitec.labels =~= c.amplitec.labels);
}

/// The keys of a window's position.
pub open spec fn pos_keys(w: Window) -> (Seq<char>, Seq<char>) {
    match w {
        Window::Main => ("main_pos_x"@, "main_pos_y"@),
        Window::Tuner => ("tuner_pos_x"@, "tuner_pos_y"@),
        Window::Amplitec => ("amplitec_pos_x"@, "amplitec_pos_y"@),
        Window::Spe => ("spe_pos_x"@, "spe_pos_y"@),
        Window::Rf2k => ("rf2k_pos_x"@, "rf2k_pos_y"@),
        Window::Ultrabeam => ("ultrabeam_pos_x"@, "ultrabeam_pos_y"@),
        Window::Rotor => ("rotor_pos_x"@, "rotor_pos_y"@),
    }
}

/// A window's position lines after whole lines are read as its position entries only.
pub proof fn lemma_pos_window(st: (SettingsView, FloatList), a: Seq<char>, f: FloatList, w: Window)
    requires
        whole_lines(a),
        floats_round_trip(f),
    ensures
        whole_lines(a + pos_lines(pos_keys(w), f, w)),
        apply_lines(st, a + pos_lines(pos_keys(w), f, w)) == ({
            let t = apply_lines(st, a);
            (t.0, t.1 + pos_floats(f, w))
        }),
{
    reveal_strlit("tuner_pos_x");
    reveal_strlit("tuner_pos_y");
    reveal_strlit("amplitec_pos_x");
    reveal_strlit("amplitec_pos_y");
    reveal_strlit("spe_pos_x");
    reveal_strlit("spe_pos_y");
    reveal_strlit("rf2k_pos_x");
    reveal_strlit("rf2k_pos_y");
    reveal_strlit("ultrabeam_pos_x");
    reveal_strlit("ultrabeam_pos_y");
    reveal_strlit("rotor_pos_x");
    reveal_strlit("rotor_pos_y");
    reveal_strlit("main_pos_x");
    reveal_strlit("main_pos_y");
    let s = (FloatSetting::WindowPos { window: w, index: 0 }, FloatSetting::WindowPos { window: w, index: 1 });
    let k = pos_keys(w);
    assert forall|c: SettingsView, g: FloatList, v: Seq<char>| #[trigger] apply_entry(c, g, k.0, v) == (c, g.push((s.0, v))) by {
        lemma_pos_keys(c, g, v);
    }
    assert forall|c: SettingsView, g: FloatList, v: Seq<char>| #[trigger] apply_entry(c, g, k.1, v) == (c, g.push((s.1, v))) by {
        lemma_pos_keys(c, g, v);
    }
    lemma_float_value_storable(f, s.0);
    lemma_float_value_storable(f, s.1);
    lemma_pair_after(st, a, k, s, float_value(f, s.0), float_value(f, s.1));
}

/// The window-position lines after whole lines are read as the position entries only.
pub proof fn lemma_positions_read(st: (SettingsView, FloatList), pre: Seq<char>, f: FloatList)
    requires
        whole_lines(pre),
        floats_round_trip(f),
    ensures
        whole_lines(pre + position_lines(f)),
        apply_lines(st, pre + position_lines(f)) == ({
            let t = apply_lines(st, pre);
            (t.0, t.1 + position_floats(f))
        }),
{
    let t = apply_lines(st, pre);
    lemma_pos_window(st, pre, f, Window::Tuner);
    let p0 = pos_lines(pos_keys(Window::Tuner), f, Window::Tuner);
    let h0 = pos_floats(f, Window::Tuner);
    lemma_pos_window(st, pre + p0, f, Window::Amplitec);
    lemma_regroup(pre, p0, pos_lines(pos_keys(Window::Amplitec), f, Window::Amplitec));
    lemma_regroup(t.1, h0, pos_floats(f, Window::Amplitec));
    let p1 = p0 + pos_lines(pos_keys(Window::Amplitec), f, Window::Amplitec);
    let h1 = h0 + pos_floats(f, Window::Amplitec);
    lemma_pos_window(st, pre + p1, f, Window::Spe);
    lemma_regroup(pre, p1, pos_lines(pos_keys(Window::Spe), f, Window::Spe));
    lemma_regroup(t.1, h1, pos_floats(f, Window::Spe));
    let p2 = p1 + pos_lines(pos_keys(Window::Spe), f, Window::Spe);
    let h2 = h1 + pos_floats(f, Window::Spe);
    lemma_pos_window(st, pre + p2, f, Window::Rf2k);
    lemma_regroup(pre, p2, pos_lines(pos_keys(Window::Rf2k), f, Window::Rf2k));
    lemma_regroup(t.1, h2, pos_floats(f, Window::Rf2k));
    let p3 = p2 + pos_lines(pos_keys(Window::Rf2k), f, Window::Rf2k);
    let h3 = h2 + pos_floats(f, Window::Rf2k);
    lemma_pos_window(st, pre + p3, f, Window::Ultrabeam);
    lemma_regroup(pre, p3, pos_lines(pos_keys(Window::Ultrabeam), f, Window::Ultrabeam));
    lemma_regroup(t.1, h3, pos_floats(f, Window::Ultrabeam));
    let p4 = p3 + pos_lines(pos_keys(Window::Ultrabeam), f, Window::Ultrabeam);
    let h4 = h3 + pos_floats(f, Window::Ultrabeam);
    lemma_pos_window(st, pre + p4, f, Window::Rotor);
    lemma_regroup(pre, p4, pos_lines(pos_keys(Window::Rotor), f, Window::Rotor));
    lemma_regroup(t.1, h4, pos_floats(f, Window::Rotor));
    let p5 = p4 + pos_lines(pos_keys(Window::Rotor), f, Window::Rotor);
    let h5 = h4 + pos_floats(f, Window::Rotor);
    lemma_pos_window(st, pre + p5, f, Window::Main);
    lemma_regroup(pre, p5, pos_lines(pos_keys(Window::Main), f, Window::Main));
    lemma_regroup(t.1, h5, pos_floats(f, Window::Main));
    let p6 = p5 + pos_lines(pos_keys(Window::Main), f, Window::Main);
    let h6 = h5 + pos_floats(f, Window::Main);
    assert(p6 == position_lines(f));
    assert(h6 == position_floats(f));
}

/// The keys of a window's size.
pub open spec fn size_keys(w: Window) -> (Seq<char>, Seq<char>) {
    match w {
        Window::Main => ("main_size_w"@, "main_size_h"@),
        Window::Tuner => ("tuner_size_w"@, "tuner_size_h"@),
        Window::Amplitec => ("amplitec_size_w"@, "amplitec_size_h"@),
        Window::Spe => ("spe_size_w"@, "spe_size_h"@),
        Window::Rf2k => ("rf2k_size_w"@, "rf2k_size_h"@),
        Window::Ultrabeam => ("ultrabeam_size_w"@, "ultrabeam_size_h"@),
        Window::Rotor => ("rotor_size_w"@, "rotor_size_h"@),
    }
}

/// A window's size lines after whole lines are read as its size entries only.
pub proof fn lemma_size_window(st: (SettingsView, FloatList), a: Seq<char>, f: FloatList, w: Window)
    requires
        whole_lines(a),
        floats_round_trip(f),
    ensures
        whole_lines(a + size_lines(size_keys(w), f, w)),
        apply_lines(st, a + size_lines(size_keys(w), f, w)) == ({
            let t = apply_lines(st, a);
            (t.0, t.1 + size_floats(f, w))
        }),
{
    reveal_strlit("main_size_w");
    reveal_strlit("main_size_h");
    reveal_strlit("tuner_size_w");
    reveal_strlit("tuner_size_h");
    reveal_strlit("amplitec_size_w");
    reveal_strlit("amplitec_size_h");
    reveal_strlit("spe_size_w");
    reveal_strlit("spe_size_h");
    reveal_strlit("rf2k_size_w");
    reveal_strlit("rf2k_size_h");
    reveal_strlit("ultrabeam_size_w");
    reveal_strlit("ultrabeam_size_h");
    reveal_strlit("rotor_size_w");
    reveal_strlit("rotor_size_h");
    let s = (FloatSetting::WindowSize { window: w, index: 0 }, FloatSetting::WindowSize { window: w, index: 1 });
    let k = size_keys(w);
    assert forall|c: SettingsView, g: FloatList, v: Seq<char>| #[trigger] apply_entry(c, g, k.0, v) == (c, g.push((s.0, v))) by {
        lemma_size_keys(c, g, v);
    }
    assert forall|c: SettingsView, g: FloatList, v: Seq<char>| #[trigger] apply_entry(c, g, k.1, v) == (c, g.push((s.1, v))) by {
        lemma_size_keys(c, g, v);
    }
    lemma_float_value_storable(f, s.0);
    lemma_float_value_storable(f, s.1);
    lemma_pair_after(st, a, k, s, float_value(f, s.0), float_value(f, s.1));
}

/// The window-size lines after whole lines are read as the size entries only.
pub proof fn lemma_sizes_read(st: (SettingsView, FloatList), pre: Seq<char>, f: FloatList)
    requires
        whole_lines(pre),
        floats_round_trip(f),
    ensures
        whole_lines(pre + window_size_lines(f)),
        apply_lines(st, pre + window_size_lines(f)) == ({
            let t = apply_lines(st, pre);
            (t.0, t.1 + window_size_floats(f))
        }),
{
    let t = apply_lines(st, pre);
    lemma_size_window(st, pre, f, Window::Main);
    let p0 = size_lines(size_keys(Window::Main), f, Window::Main);
    let h0 = size_floats(f, Window::Main);
    lemma_size_window(st, pre + p0, f, Window::Tuner);
    lemma_regroup(pre, p0, size_lines(size_keys(Window::Tuner), f, Window::Tuner));
    lemma_regroup(t.1, h0, size_floats(f, Window::Tuner));
    let p1 = p0 + size_lines(size_keys(Window::Tuner), f, Window::Tuner);
    let h1 = h0 + size_floats(f, Window::Tuner);
    lemma_size_window(st, pre + p1, f, Window::Amplitec);
    lemma_regroup(pre, p1, size_lines(size_keys(Window::Amplitec), f, Window::Amplitec));
    lemma_regroup(t.1, h1, size_floats(f, Window::Amplitec));
    let p2 = p1 + size_lines(size_keys(Window::Amplitec), f, Window::Amplitec);
    let h2 = h1 + size_floats(f, Window::Amplitec);
    lemma_size_window(st, pre + p2, f, Window::Spe);
    lemma_regroup(pre, p2, size_lines(size_keys(Window::Spe), f, Window::Spe));
    lemma_regroup(t.1, h2, size_floats(f, Window::Spe));
    let p3 = p2 + size_lines(size_keys(Window::Spe), f, Window::Spe);
    let h3 = h2 + size_floats(f, Window::Spe);
    lemma_size_window(st, pre + p3, f, Window::Rf2k);
    lemma_regroup(pre, p3, size_lines(size_keys(Window::Rf2k), f, Window::Rf2k));
    lemma_regroup(t.1, h3, size_floats(f, Window::Rf2k));
    let p4 = p3 + size_lines(size_keys(Window::Rf2k), f, Window::Rf2k);
    let h4 = h3 + size_floats(f, Window::Rf2k);
    lemma_size_window(st, pre + p4, f, Window::Ultrabeam);
    lemma_regroup(pre, p4, size_lines(size_keys(Window::Ultrabeam), f, Window::Ultrabeam));
    lemma_regroup(t.1, h4, size_floats(f, Window::Ultrabeam));
    let p5 = p4 + size_lines(size_keys(Window::Ultrabeam), f, Window::Ultrabeam);
    let h5 = h4 + size_floats(f, Window::Ultrabeam);
    lemma_size_window(st, pre + p5, f, Window::Rotor);
    lemma_regroup(pre, p5, size_lines(size_keys(Window::Rotor), f, Window::Rotor));
    lemma_regroup(t.1, h5, size_floats(f, Window::Rotor));
    let p6 = p5 + size_lines(size_keys(Window::Rotor), f, Window::Rotor);
    let h6 = h5 + size_floats(f, Window::Rotor);
    assert(p6 == window_size_lines(f));
    assert(h6 == window_size_floats(f));
}

/// The session lines after whole lines are read back into the session state.
pub proof fn lemma_session_read(st: (SettingsView, FloatList), pre: Seq<char>, c: SettingsView)
    requires
        whole_lines(pre),
        round_trips(c),
        apply_lines(st, pre).0.session.rf2k_saved_drive is None,
        apply_lines(st, pre).0.session.spe_saved_drive is None,
    ensures
        whole_lines(pre + session_lines(c.session)),
        apply_lines(st, pre + session_lines(c.session)).0 == (SettingsView { session: c.session, ..apply_lines(st, pre).0 }),
        apply_lines(st, pre + session_lines(c.session)).1 == apply_lines(st, pre).1,
{
    reveal_strlit("autostart");
    reveal_strlit("active_pa");
    reveal_strlit("rf2k_saved_drive");
    reveal_strlit("spe_saved_drive");
    reveal_strlit("ultrabeam_show_menu");
    reveal_strlit("mcp2221_section_expanded");
    reveal_strlit("true");
    reveal_strlit("false");
    lemma_digits_storable(c.session.active_pa as nat);
    lemma_parse_decimal_digits(c.session.active_pa as nat, 255);
    if let Some(n) = c.session.rf2k_saved_drive { lemma_digits_storable(n as nat); lemma_decimal_digits_value(n as nat); lemma_parse_decimal_digits(n as nat, 255); }
    if let Some(n) = c.session.spe_saved_drive { lemma_digits_storable(n as nat); lemma_decimal_digits_value(n as nat); lemma_parse_decimal_digits(n as nat, 255); }
    lemma_lines_then(st, pre, session_lines(c.session));
    let ghost t = apply_lines(st, pre);
    let ghost s1 = t;
    lemma_entry_read(t, "autostart"@, bool_text(c.session.autostart));
    let ghost p2 = entry_line("autostart"@, bool_text(c.session.autostart));
    lemma_session_keys(s1.0, s1.1, bool_text(c.session.autostart));
    let ghost s3 = apply_lines(t, p2);
    lemma_entry_after(t, p2, "active_pa"@, decimal_digits(c.session.active_pa as nat));
    let ghost p4 = p2 + entry_line("active_pa"@, decimal_digits(c.session.active_pa as nat));
    lemma_session_keys(s3.0, s3.1, decimal_digits(c.session.active_pa as nat));
    let ghost s5 = apply_lines(t, p4);
    lemma_optional_after(t, p4, "rf2k_saved_drive"@, (match c.session.rf2k_saved_drive { Some(n) => Some(decimal_digits(n as nat)), None => None }));
    if let Some(x) = (match c.session.rf2k_saved_drive { Some(n) => Some(decimal_digits(n as nat)), None => None }) {
        lemma_session_keys(s5.0, s5.1, x);
    }
    let ghost p6 = p4 + optional_line("rf2k_saved_drive"@, (match c.session.rf2k_saved_drive { Some(n) => Some(decimal_digits(n as nat)), None => None }));
    let ghost s7 = apply_lines(t, p6);
    lemma_optional_after(t, p6, "spe_saved_drive"@, (match c.session.spe_saved_drive { Some(n) => Some(decimal_digits(n as nat)), None => None }));
    if let Some(x) = (match c.session.spe_saved_drive { Some(n) => Some(decimal_digits(n as nat)), None => None }) {
        lemma_session_keys(s7.0, s7.1, x);
    }
    let ghost p8 = p6 + optional_line("spe_saved_drive"@, (match c.session.spe_saved_drive { Some(n) => Some(decimal_digits(n as nat)), None => None }));
    let ghost s9 = apply_lines(t, p8);
    lemma_entry_after(t, p8, "ultrabeam_show_menu"@, bool_text(c.session.ultrabeam_show_menu));
    let ghost p10 = p8 + entry_line("ultrabeam_show_menu"@, bool_text(c.session.ultrabeam_show_menu));
    lemma_session_keys(s9.0, s9.1, bool_text(c.session.ultrabeam_show_menu));
    let ghost s11 = apply_lines(t, p10);
    lemma_entry_after(t, p10, "mcp2221_section_expanded"@, bool_text(c.session.mcp2221_section_expanded));
    let ghost p12 = p10 + entry_line("mcp2221_section_expanded"@, bool_text(c.session.mcp2221_section_expanded));
    lemma_session_keys(s11.0, s11.1, bool_text(c.session.mcp2221_section_expanded));
    assert(p12 == session_lines(c.session));
    if session_lines(c.session).len() == 0 {
        assert(pre + session_lines(c.session) =~= pre);
    } else {
        assert((pre + session_lines(c.session)).last() == session_lines(c.session).last());
    }
}

/// The DX-cluster lines after whole lines are read back into its settings.
pub proof fn lemma_cluster_read(st: (SettingsView, FloatList), pre: Seq<char>, c: SettingsView)
    requires
        whole_lines(pre),
        round_trips(c),
    ensures
        whole_lines(pre + cluster_lines(c.cluster)),
        apply_lines(st, pre + cluster_lines(c.cluster)).0 == (SettingsView { cluster: c.cluster, ..apply_lines(st, pre).0 }),
        apply_lines(st, pre + cluster_lines(c.cluster)).1 == apply_lines(st, pre).1,
{
    reveal_strlit("dxcluster_server");
    reveal_strlit("dxcluster_callsign");
    reveal_strlit("dxcluster_enabled");
    reveal_strlit("dxcluster_expiry_min");
    reveal_strlit("true");
    reveal_strlit("false");
    lemma_digits_storable(c.cluster.expiry_min as nat);
    lemma_parse_decimal_digits(c.cluster.expiry_min as nat, u16::MAX as int);
    lemma_lines_then(st, pre, cluster_lines(c.cluster));
    let ghost t = apply_lines(st, pre);
    let ghost s1 = t;
    lemma_entry_read(t, "dxcluster_server"@, c.cluster.server);
    let ghost p2 = entry_line("dxcluster_server"@, c.cluster.server);
    lemma_cluster_keys(s1.0, s1.1, c.cluster.server);
    let ghost s3 = apply_lines(t, p2);
    lemma_entry_after(t, p2, "dxcluster_callsign"@, c.cluster.callsign);
    let ghost p4 = p2 + entry_line("dxcluster_callsign"@, c.cluster.callsign);
    lemma_cluster_keys(s3.0, s3.1, c.cluster.callsign);
    let ghost s5 = apply_lines(t, p4);
    lemma_entry_after(t, p4, "dxcluster_enabled"@, bool_text(c.cluster.enabled));
    let ghost p6 = p4 + entry_line("dxcluster_enabled"@, bool_text(c.cluster.enabled));
    lemma_cluster_keys(s5.0, s5.1, bool_text(c.cluster.enabled));
    let ghost s7 = apply_lines(t, p6);
    lemma_entry_after(t, p6, "dxcluster_expiry_min"@, decimal_digits(c.cluster.expiry_min as nat));
    let ghost p8 = p6 + entry_line("dxcluster_expiry_min"@, decimal_digits(c.cluster.expiry_min as nat));
    lemma_cluster_keys(s7.0, s7.1, decimal_digits(c.cluster.expiry_min as nat));
    assert(p8 == cluster_lines(c.cluster));
    if cluster_lines(c.cluster).len() == 0 {
        assert(pre + cluster_lines(c.cluster) =~= pre);
    } else {
        assert((pre + cluster_lines(c.cluster)).last() == cluster_lines(c.cluster).last());
    }
}

/// The access lines after whole lines are read back into its settings.
pub proof fn lemma_access_read(st: (SettingsView, FloatList), pre: Seq<char>, c: SettingsView)
    requires
        whole_lines(pre),
        round_trips(c),
        apply_lines(st, pre).0.access.password is None,
        apply_lines(st, pre).0.access.totp_secret is None,
        apply_lines(st, pre).0.access.friendly_name is None,
    ensures
        whole_lines(pre + access_lines(c.access)),
        apply_lines(st, pre + access_lines(c.access)).0 == (SettingsView { access: c.access, ..apply_lines(st, pre).0 }),
        apply_lines(st, pre + access_lines(c.access)).1 == apply_lines(st, pre).1,
{
    reveal_strlit("password");
    reveal_strlit("totp_enabled");
    reveal_strlit("totp_secret");
    reveal_strlit("friendly_name");
    reveal_strlit("true");
    reveal_strlit("false");
    lemma_lines_then(st, pre, access_lines(c.access));
    let ghost t = apply_lines(st, pre);
    lemma_no_lines(t);
    assert(Seq::<char>::empty() + optional_line("password"@, c.access.password) =~= optional_line("password"@, c.access.password));
    lemma_optional_after(t, Seq::<char>::empty(), "password"@, c.access.password);
    if let Some(x) = c.access.password { lemma_access_keys(t.0, t.1, x); }
    let ghost p0 = optional_line("password"@, c.access.password);
    let ghost s1 = apply_lines(t, p0);
    lemma_entry_after(t, p0, "totp_enabled"@, bool_text(c.access.totp_enabled));
    let ghost p2 = p0 + entry_line("totp_enabled"@, bool_text(c.access.totp_enabled));
    lemma_access_keys(s1.0, s1.1, bool_text(c.access.totp_enabled));
    let ghost s3 = apply_lines(t, p2);
    lemma_optional_after(t, p2, "totp_secret"@, c.access.totp_secret);
    if let Some(x) = c.access.totp_secret {
        lemma_access_keys(s3.0, s3.1, x);
    }
    let ghost p4 = p2 + optional_line("totp_secret"@, c.access.totp_secret);
    let ghost s5 = apply_lines(t, p4);
    lemma_optional_after(t, p4, "friendly_name"@, c.access.friendly_name);
    if let Some(x) = c.access.friendly_name {
        lemma_access_keys(s5.0, s5.1, x);
    }
    let ghost p6 = p4 + optional_line("friendly_name"@, c.access.friendly_name);
    assert(p6 == access_lines(c.access));
    if access_lines(c.access).len() == 0 {
        assert(pre + access_lines(c.access) =~= pre);
    } else {
        assert((pre + access_lines(c.access)).last() == access_lines(c.access).last());
    }
}

/// The settings file up to the labels: link, switch, devices, tuners, labels.
pub open spec fn front_text(c: SettingsView, f: FloatList) -> Seq<char> {
    head_lines(c) + tuner_lines(("tuner1_enabled"@, "tuner1_model"@, "tuner1_mcp_serial"@, "tuner1_amplitec_pos"@, "tuner1_threshold_v"@, "tuner1_hysteresis_v"@), c.tuners.tuner1, f, 0) + tuner_lines(("tuner2_enabled"@, "tuner2_model"@, "tuner2_mcp_serial"@, "tuner2_amplitec_pos"@, "tuner2_threshold_v"@, "tuner2_hysteresis_v"@), c.tuners.tuner2, f, 1)
        + label_lines(c.amplitec.labels)
}

/// The front of the file is read back into the settings it holds.
pub proof fn lemma_front_read(st: (SettingsView, FloatList), c: SettingsView, f: FloatList)
    requires
        round_trips(c),
        floats_round_trip(f),
        st.0.amplitec.labels.len() == 6,
    ensures
        whole_lines(front_text(c, f)),
        apply_lines(st, front_text(c, f)).0 == (SettingsView {
            radio: RadioView { spectrum_enabled: st.0.radio.spectrum_enabled, ..c.radio },
            amplitec: c.amplitec,
            tuners: c.tuners,
            spe: c.spe,
            rf2k: c.rf2k,
            ultrabeam: c.ultrabeam,
            rotor: c.rotor,
            ..st.0
        }),
        apply_lines(st, front_text(c, f)).1 == st.1 + tuner_floats(f, 0) + tuner_floats(f, 1),
{
    lemma_head_read(st, c);
    let p1 = head_lines(c);
    lemma_tuner1_read(st, p1, c, f);
    let p2 = p1 + tuner_lines(("tuner1_enabled"@, "tuner1_model"@, "tuner1_mcp_serial"@, "tuner1_amplitec_pos"@, "tuner1_threshold_v"@, "tuner1_hysteresis_v"@), c.tuners.tuner1, f, 0);
    lemma_tuner2_read(st, p2, c, f);
    let p3 = p2 + tuner_lines(("tuner2_enabled"@, "tuner2_model"@, "tuner2_mcp_serial"@, "tuner2_amplitec_pos"@, "tuner2_threshold_v"@, "tuner2_hysteresis_v"@), c.tuners.tuner2, f, 1);
    lemma_labels_read(st, p3, c);
}

/// The saved text, cut into the blocks that are read back one by one.
pub proof fn lemma_text_blocks(c: SettingsView, f: FloatList)
    ensures
        settings_text(c, f) == front_text(c, f) + position_lines(f) + window_size_lines(f)
            + session_lines(c.session) + cluster_lines(c.cluster) + access_lines(c.access),
{
    let fr = front_text(c, f);
    let p = position_lines(f);
    let z = window_size_lines(f);
    let se = session_lines(c.session);
    let cl = cluster_lines(c.cluster);
    let ac = access_lines(c.access);
    assert(settings_text(c, f) == fr + (p + z) + (se + cl + ac));
    lemma_regroup(fr, p, z);
    lemma_regroup(fr + p + z, se + cl, ac);
    lemma_regroup(fr + p + z, se, cl);
}

/// The saved text, read from any state whose labels, saved drives and
/// access texts are as a fresh state has them, gives the settings saved,
/// but for the spectrum switch, which keeps the value it had.
#[verifier::spinoff_prover]
pub proof fn lemma_text_read_from(st: (SettingsView, FloatList), c: SettingsView, f: FloatList)
    requires
        round_trips(c),
        floats_round_trip(f),
        st.0.amplitec.labels.len() == 6,
        st.0.session.rf2k_saved_drive is None,
        st.0.session.spe_saved_drive is None,
        st.0.access.password is None,
        st.0.access.totp_secret is None,
        st.0.access.friendly_name is None,
    ensures
        apply_lines(st, settings_text(c, f)).0 == (SettingsView {
            radio: RadioView { spectrum_enabled: st.0.radio.spectrum_enabled, ..c.radio },
            ..c
        }),
        apply_lines(st, settings_text(c, f)).1 == st.1 + written_floats(f),
{
    lemma_front_read(st, c, f);
    let p1 = front_text(c, f);
    let s1 = apply_lines(st, p1).0;
    lemma_positions_read(st, p1, f);
    let p2 = p1 + position_lines(f);
    lemma_sizes_read(st, p2, f);
    let p3 = p2 + window_size_lines(f);
    assert(apply_lines(st, p3).0 == s1);
    lemma_session_read(st, p3, c);
    let p4 = p3 + session_lines(c.session);
    let s4 = apply_lines(st, p4).0;
    lemma_cluster_read(st, p4, c);
    let p5 = p4 + cluster_lines(c.cluster);
    let s5 = apply_lines(st, p5).0;
    lemma_access_read(st, p5, c);
    let p6 = p5 + access_lines(c.access);
    lemma_text_blocks(c, f);
    assert(p6 == settings_text(c, f));
    let tf = tuner_floats(f, 0) + tuner_floats(f, 1);
    lemma_regroup(st.1, tuner_floats(f, 0), tuner_floats(f, 1));
    lemma_regroup(st.1, tf, position_floats(f));
    lemma_regroup(st.1, tf + position_floats(f), window_size_floats(f));
}

/// What reading relies on in the defaults: six labels, no saved drive
/// levels, no access texts, and the spectrum switched on.
proof fn lemma_fresh_settings(thetis_path: Option<Seq<char>>)
    ensures
        default_settings(thetis_path).amplitec.labels.len() == 6,
        default_settings(thetis_path).session.rf2k_saved_drive is None,
        default_settings(thetis_path).session.spe_saved_drive is None,
        default_settings(thetis_path).access.password is None,
        default_settings(thetis_path).access.totp_secret is None,
        default_settings(thetis_path).access.friendly_name is None,
        default_settings(thetis_path).radio.spectrum_enabled,
{
    assert(default_settings(thetis_path).amplitec.labels == numbered_labels("Ant"@));
}

/// Settings saved and read back are the settings saved, but for the
/// spectrum switch, which the file does not hold (it reads back on); and
/// the floating-point entries read back are the ones the file holds, in
/// its order. This holds for every launch path the reader starts from.
#[verifier::spinoff_prover]
pub proof fn lemma_saved_settings_read_back(c: SettingsView, f: FloatList, thetis_path: Option<Seq<char>>)
    requires
        round_trips(c),
        floats_round_trip(f),
    ensures
        settings_from_text(settings_text(c, f), thetis_path).0 == (SettingsView {
            radio: RadioView { spectrum_enabled: true, ..c.radio },
            ..c
        }),
        settings_from_text(settings_text(c, f), thetis_path).1 == written_floats(f),
{
    let st = (default_settings(thetis_path), Seq::<(FloatSetting, Seq<char>)>::empty());
    lemma_fresh_settings(thetis_path);
    lemma_text_read_from(st, c, f);
    lemma_empty_then(written_floats(f));
}

} // verus!
