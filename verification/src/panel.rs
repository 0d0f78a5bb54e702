//! Helpers of the server's status panel: the tuner model guessed from a
//! board serial, the serials offered for selection, and short durations.

use vstd::prelude::*;
use vstd::string::{StrSliceExecFns, StringExecFns};

use crate::scan::{ascii_lower_code, chars_of, decimal_digits, push_decimal};
use crate::settings::TunerModel;

verus! {

/// Whether `s` holds a `3` directly followed by an `s` or `S`.
pub open spec fn mentions_3s(s: Seq<char>) -> bool {
    exists|i: int| 0 <= i < s.len() - 1 && s[i] == '3' && ascii_lower_code(#[trigger] s[i + 1]) == 's' as u32
}

/// The model a freshly programmed serial suggests: JC-3s when it contains
/// `3s` in any case, JC-4s otherwise.
pub open spec fn spec_infer_model(serial: Seq<char>) -> TunerModel {
    if mentions_3s(serial) {
        TunerModel::Jc3s
    } else {
        TunerModel::Jc4s
    }
}

/// Guesses the cosmetic tuner model from a board serial.
pub fn infer_model_from_serial(serial: &str) -> (r: TunerModel)
    ensures
        r == spec_infer_model(serial@),
{
    let chars = chars_of(serial);
    let n = chars.len();
    let mut i: usize = 0;
    while n > 0 && i < n - 1
        invariant
            i <= n,
            chars@ == serial@,
            n == chars@.len(),
            forall|k: int|
                0 <= k < i && k < n - 1 ==> !(chars@[k] == '3' && ascii_lower_code(#[trigger] chars@[k + 1]) == 's' as u32),
        decreases n - i,
    {
        let c = chars[i + 1];
        let code: u32 = if 'A' <= c && c <= 'Z' {
            c as u32 + 32
        } else {
            c as u32
        };
        if chars[i] == '3' && code == 's' as u32 {
            assert(ascii_lower_code(serial@[i + 1]) == 's' as u32);
            return TunerModel::Jc3s;
        }
        i = i + 1;
    }
    assert(!mentions_3s(serial@)) by {
        assert forall|k: int| 0 <= k < serial@.len() - 1 && serial@[k] == '3' implies ascii_lower_code(
            #[trigger] serial@[k + 1],
        ) != 's' as u32 by {
            assert(k < i);
        }
    }
    TunerModel::Jc4s
}

/// The texts of `s` that are not empty, in order.
pub open spec fn non_empty_texts(s: Seq<Seq<char>>) -> Seq<Seq<char>>
    decreases s.len(),
{
    if s.len() == 0 {
        s
    } else if s.last().len() == 0 {
        non_empty_texts(s.drop_last())
    } else {
        non_empty_texts(s.drop_last()).push(s.last())
    }
}

/// The serials of the last board scan that are not empty, in scan order;
/// none before a scan has succeeded.
pub fn cached_scan_serials(scan: &Option<Result<Vec<String>, String>>) -> (r: Vec<String>)
    ensures
        r@.map_values(|s: String| s@) == (match scan {
            Some(Ok(list)) => non_empty_texts(list@.map_values(|s: String| s@)),
            _ => Seq::empty(),
        }),
{
    let mut out: Vec<String> = Vec::new();
    match scan {
        Some(Ok(list)) => {
            let ghost all = list@.map_values(|s: String| s@);
            let mut i: usize = 0;
            while i < list.len()
                invariant
                    i <= list@.len(),
                    all == list@.map_values(|s: String| s@),
                    out@.map_values(|s: String| s@) == non_empty_texts(all.subrange(0, i as int)),
                decreases list@.len() - i,
            {
                assert(all.subrange(0, i + 1).drop_last() =~= all.subrange(0, i as int));
                let serial = &list[i];
                if serial.as_str().unicode_len() > 0 {
                    out.push(serial.clone());
                    assert(out@.map_values(|s: String| s@) =~= non_empty_texts(all.subrange(0, i as int)).push(all[i as int]));
                }
                i = i + 1;
            }
            assert(all.subrange(0, list@.len() as int) =~= all);
        },
        _ => {
            assert(out@.map_values(|s: String| s@) =~= Seq::<Seq<char>>::empty());
        },
    }
    out
}

/// A whole number of seconds written short: `Ys` under a minute, `Xm Ys`
/// under an hour, `Xh Ym` from an hour on.
pub open spec fn spec_duration_short(total: nat) -> Seq<char> {
    let m = total / 60;
    let s = total % 60;
    if m == 0 {
        decimal_digits(s) + "s"@
    } else if m < 60 {
        decimal_digits(m) + "m "@ + decimal_digits(s) + "s"@
    } else {
        decimal_digits(m / 60) + "h "@ + decimal_digits(m % 60) + "m"@
    }
}

/// Formats a duration given in whole seconds.
pub fn format_duration_short(total_secs: u64) -> (r: String)
    ensures
        r@ == spec_duration_short(total_secs as nat),
{
    let m = total_secs / 60;
    let s = total_secs % 60;
    let mut out = String::new();
    if m == 0 {
        push_decimal(&mut out, s);
        out.append("s");
    } else if m < 60 {
        push_decimal(&mut out, m);
        out.append("m ");
        push_decimal(&mut out, s);
        out.append("s");
    } else {
        push_decimal(&mut out, m / 60);
        out.append("h ");
        push_decimal(&mut out, m % 60);
        out.append("m");
    }
    out
}

} // verus!
