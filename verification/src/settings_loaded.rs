//! Settings read from any text are settings that read back as themselves
//! once saved: so a load, a change made by one of the save helpers, a save
//! and another load give the changed settings.

use vstd::prelude::*;

use crate::scan::{index_of_first, is_white_space, lemma_index_of_first_props, trim, trim_end, trim_start};
use crate::settings::{default_settings, with_session, SessionState, SettingsView, RadioView};
use crate::settings_file::{
    apply_entry, apply_line, apply_lines, settings_from_text, skip, FloatList,
};
use crate::settings_roundtrip::{
    floats_round_trip, lemma_saved_settings_read_back, opt_storable, round_trips, storable,
};
use crate::settings_save::settings_text;

verus! {

/// Whether `s` holds no line break.
pub open spec fn no_break(s: Seq<char>) -> bool {
    forall|i: int| 0 <= i < s.len() ==> s[i] != '\n'
}

/// Trimming the start leaves a tail of the text that does not start with
/// white space.
proof fn lemma_trim_start(s: Seq<char>)
    ensures
        exists|i: int| 0 <= i <= s.len() && trim_start(s) == #[trigger] s.subrange(i, s.len() as int),
        trim_start(s).len() > 0 ==> !is_white_space(trim_start(s)[0]),
    decreases s.len(),
{
    if s.len() > 0 && is_white_space(s[0]) {
        lemma_trim_start(s.drop_first());
        let i = choose|i: int|
            0 <= i <= s.drop_first().len() && trim_start(s.drop_first()) == #[trigger] s.drop_first().subrange(
                i,
                s.drop_first().len() as int,
            );
        assert(s.drop_first().subrange(i, s.drop_first().len() as int) =~= s.subrange(i + 1, s.len() as int));
    } else {
        assert(s.subrange(0, s.len() as int) =~= s);
    }
}

/// Trimming the end leaves a head of the text that does not end with white
/// space.
proof fn lemma_trim_end(s: Seq<char>)
    ensures
        exists|j: int| 0 <= j <= s.len() && trim_end(s) == #[trigger] s.subrange(0, j),
        trim_end(s).len() > 0 ==> !is_white_space(trim_end(s).last()),
    decreases s.len(),
{
    if s.len() > 0 && is_white_space(s.last()) {
        lemma_trim_end(s.drop_last());
        let j = choose|j: int| 0 <= j <= s.drop_last().len() && trim_end(s.drop_last()) == #[trigger] s.drop_last().subrange(0, j);
        assert(s.drop_last().subrange(0, j) =~= s.subrange(0, j));
    } else {
        assert(s.subrange(0, s.len() as int) =~= s);
    }
}

/// Text without line breaks, trimmed, can stand in a line as it is; its
/// characters are characters of the text.
pub proof fn lemma_trim_storable(s: Seq<char>)
    requires
        no_break(s),
    ensures
        storable(trim(s)),
        no_break(trim(s)),
{
    lemma_trim_start(s);
    let a = trim_start(s);
    let i = choose|i: int| 0 <= i <= s.len() && a == #[trigger] s.subrange(i, s.len() as int);
    lemma_trim_end(a);
    let b = trim_end(a);
    let j = choose|j: int| 0 <= j <= a.len() && b == #[trigger] a.subrange(0, j);
    assert forall|k: int| 0 <= k < b.len() implies b[k] != '\n' by {
        assert(b[k] == s[i + k]);
    }
    if b.len() > 0 {
        assert(b[0] == a[0]);
    }
}

/// What a value read from a line is: trimmed text of a line.
proof fn lemma_line_parts(line: Seq<char>)
    requires
        no_break(line),
    ensures
        ({
            let t = trim(line);
            let e = index_of_first(t, '=');
            e < t.len() ==> storable(trim(skip(t, e + 1)))
        }),
{
    lemma_trim_storable(line);
    let t = trim(line);
    lemma_index_of_first_props(t, '=');
    let e = index_of_first(t, '=');
    if e < t.len() {
        let v = skip(t, e + 1);
        assert forall|k: int| 0 <= k < v.len() implies v[k] != '\n' by {
            assert(v[k] == t[e + 1 + k]);
        }
        lemma_trim_storable(v);
    }
}

/// Settings that read back, and stored floating-point texts.
pub open spec fn state_round_trips(st: (SettingsView, FloatList)) -> bool {
    round_trips(st.0) && floats_round_trip(st.1)
}

/// An entry with a storable value keeps settings that read back as
/// themselves.
#[verifier::rlimit(80)]
#[verifier::spinoff_prover]
pub proof fn lemma_entry_keeps(c: SettingsView, f: FloatList, k: Seq<char>, v: Seq<char>)
    requires
        round_trips(c),
        floats_round_trip(f),
        storable(v),
    ensures
        state_round_trips(apply_entry(c, f, k, v)),
{
    reveal(apply_entry);
    let r = apply_entry(c, f, k, v);
    assert forall|i: int| 0 <= i < r.1.len() implies storable(#[trigger] r.1[i].1) by {
        if i < f.len() {
            assert(r.1[i] == f[i] || r.1.len() == f.len() + 1);
        }
    }
    assert forall|i: int| 0 <= i < 6 implies storable(#[trigger] r.0.amplitec.labels[i]) by {
        if r.0.amplitec.labels[i] != c.amplitec.labels[i] {
            assert(r.0.amplitec.labels[i] == v);
        }
    }
}

/// Applying lines keeps settings that read back as themselves.
pub proof fn lemma_lines_keep(st: (SettingsView, FloatList), s: Seq<char>)
    requires
        state_round_trips(st),
    ensures
        state_round_trips(apply_lines(st, s)),
    decreases s.len(),
{
    reveal(apply_lines);
    reveal(apply_line);
    lemma_index_of_first_props(s, '\n');
    let e = index_of_first(s, '\n');
    let line = s.subrange(0, e as int);
    assert forall|i: int| 0 <= i < line.len() implies line[i] != '\n' by {
        assert(line[i] == s[i]);
    }
    lemma_line_parts(line);
    let t = trim(line);
    let x = index_of_first(t, '=');
    if x < t.len() {
        lemma_entry_keeps(st.0, st.1, trim(t.subrange(0, x as int)), trim(skip(t, x + 1)));
    }
    let next = apply_line(st, line);
    if e < s.len() {
        lemma_lines_keep(next, skip(s, e + 1));
    }
}

/// The defaults read back as themselves when the launch path does.
pub proof fn lemma_defaults_round_trip(thetis_path: Option<Seq<char>>)
    requires
        opt_storable(thetis_path),
    ensures
        round_trips(default_settings(thetis_path)),
{
    reveal_strlit("dxc.pi4cc.nl:8000");
    reveal_strlit("PA3GHM");
    reveal_strlit("Ant");
    reveal_strlit("1");
    reveal_strlit("2");
    reveal_strlit("3");
    reveal_strlit("4");
    reveal_strlit("5");
    reveal_strlit("6");
    let d = default_settings(thetis_path);
    assert forall|i: int| 0 <= i < 6 implies storable(#[trigger] d.amplitec.labels[i]) by {
        let l = d.amplitec.labels[i];
        assert(l.len() == 4);
        assert(l[0] == 'A');
        assert forall|k: int| 0 <= k < l.len() implies l[k] != '\n' by {
            assert(k < 3 ==> l[k] == "Ant"@[k]);
        }
    }
}

/// Settings read from any text, starting from defaults whose launch path
/// reads back, read back as themselves once saved, with every
/// floating-point text they hold.
pub proof fn lemma_loaded_round_trips(text: Seq<char>, thetis_path: Option<Seq<char>>)
    requires
        opt_storable(thetis_path),
    ensures
        round_trips(settings_from_text(text, thetis_path).0),
        floats_round_trip(settings_from_text(text, thetis_path).1),
{
    lemma_defaults_round_trip(thetis_path);
    let st = (default_settings(thetis_path), Seq::<(crate::settings::FloatSetting, Seq<char>)>::empty());
    lemma_lines_keep(st, text);
}

/// Load, change the state kept across restarts (what the save helpers
/// do), save, load again: the second load gives the loaded settings with
/// the change, and the spectrum switched on, as a load always has it.
pub proof fn lemma_loaded_settings_read_back(
    text: Seq<char>,
    thetis_path: Option<Seq<char>>,
    session: SessionState,
)
    requires
        opt_storable(thetis_path),
    ensures
        ({
            let (l, f) = settings_from_text(text, thetis_path);
            let changed = with_session(l, session);
            settings_from_text(settings_text(changed, f), thetis_path).0 == (SettingsView {
                radio: RadioView { spectrum_enabled: true, ..changed.radio },
                ..changed
            })
        }),
{
    lemma_loaded_round_trips(text, thetis_path);
    let (l, f) = settings_from_text(text, thetis_path);
    let changed = with_session(l, session);
    assert(round_trips(changed));
    lemma_saved_settings_read_back(changed, f, thetis_path);
}

} // verus!
