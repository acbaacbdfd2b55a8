//! Local wall-clock readings and the recording file names made from them.
use vstd::prelude::*;
use chrono::{Datelike, Timelike};
use crate::text::{decimal, digit_char, zero_padded, push_zero_padded};

verus! {

/// A local date and time, to the second.
#[derive(Debug, Clone, Copy, PartialEq, Eq, Structural)]
pub struct LocalStamp {
    pub year: i32,
    pub month: u32,
    pub day: u32,
    pub hour: u32,
    pub minute: u32,
    pub second: u32,
}

impl LocalStamp {
    /// Every field lies in its calendar range.
    pub open spec fn wf(&self) -> bool {
        &&& 1 <= self.month <= 12
        &&& 1 <= self.day <= 31
        &&& self.hour < 24
        &&& self.minute < 60
        &&& self.second < 60
    }
}

/// Relies on chrono::Local::now and on chrono's Datelike / Timelike
/// accessors, whose documented ranges are: month 1 to 12, day 1 to 31,
/// hour 0 to 23, minute 0 to 59, second 0 to 59.
#[verifier::external_body]
pub(crate) fn local_now() -> (r: LocalStamp)
    ensures
        r.wf(),
{
    let now = chrono::Local::now();
    LocalStamp {
        year: now.year(),
        month: now.month(),
        day: now.day(),
        hour: now.hour(),
        minute: now.minute(),
        second: now.second(),
    }
}

/// The year as a timestamp shows it: four digits for years 0 to 9999,
/// otherwise a sign and at least four digits.
pub open spec fn year_text(y: int) -> Seq<char> {
    if 0 <= y <= 9999 {
        zero_padded(y as nat, 4)
    } else if y > 9999 {
        seq!['+'] + zero_padded(y as nat, 4)
    } else {
        seq!['-'] + zero_padded((-y) as nat, 4)
    }
}

/// `YYYYMMDD_HHMMSS`.
pub open spec fn stamp_text(s: LocalStamp) -> Seq<char> {
    year_text(s.year as int) + zero_padded(s.month as nat, 2) + zero_padded(s.day as nat, 2)
        + seq!['_'] + zero_padded(s.hour as nat, 2) + zero_padded(s.minute as nat, 2)
        + zero_padded(s.second as nat, 2)
}

/// The name of the recording file started at `s`.
pub open spec fn file_name(s: LocalStamp) -> Seq<char> {
    "FlashScreen_"@ + stamp_text(s) + ".mp4"@
}

/// A single path component: not empty, not starting with a dot, and
/// holding no separator or drive mark.
pub open spec fn plain_component(name: Seq<char>) -> bool {
    &&& name.len() > 0
    &&& name[0] != '.'
    &&& forall|i: int| 0 <= i < name.len() ==> #[trigger] name[i] != '/' && name[i] != '\\' && name[i] != ':'
}

/// Characters that are not path separators or drive marks.
pub open spec fn no_separator(s: Seq<char>) -> bool {
    forall|i: int| 0 <= i < s.len() ==> #[trigger] s[i] != '/' && s[i] != '\\' && s[i] != ':'
}

proof fn lemma_decimal_plain(n: nat)
    ensures
        no_separator(decimal(n)),
    decreases n,
{
    if n >= 10 {
        lemma_decimal_plain(n / 10);
        assert(no_separator(decimal(n)));
    }
}

proof fn lemma_padded_plain(n: nat, w: nat)
    ensures
        no_separator(zero_padded(n, w)),
{
    lemma_decimal_plain(n);
    let d = decimal(n);
    if d.len() < w {
        let z = Seq::new((w - d.len()) as nat, |i: int| '0');
        assert(no_separator(z));
        assert(no_separator(z + d));
    }
}

proof fn lemma_concat_plain(a: Seq<char>, b: Seq<char>)
    requires
        no_separator(a),
        no_separator(b),
    ensures
        no_separator(a + b),
{
    assert forall|i: int| 0 <= i < (a + b).len() implies #[trigger] (a + b)[i] != '/' && (a
        + b)[i] != '\\' && (a + b)[i] != ':' by {
        if i < a.len() {
            assert((a + b)[i] == a[i]);
        } else {
            assert((a + b)[i] == b[i - a.len()]);
        }
    }
}

/// Every recording file name is a single plain path component.
pub proof fn lemma_file_name_plain(s: LocalStamp)
    ensures
        plain_component(file_name(s)),
{
    reveal_strlit("FlashScreen_");
    reveal_strlit(".mp4");
    let y = s.year as int;
    lemma_padded_plain(s.month as nat, 2);
    lemma_padded_plain(s.day as nat, 2);
    lemma_padded_plain(s.hour as nat, 2);
    lemma_padded_plain(s.minute as nat, 2);
    lemma_padded_plain(s.second as nat, 2);
    if 0 <= y <= 9999 {
        lemma_padded_plain(y as nat, 4);
    } else if y > 9999 {
        lemma_padded_plain(y as nat, 4);
        lemma_concat_plain(seq!['+'], zero_padded(y as nat, 4));
    } else {
        lemma_padded_plain((-y) as nat, 4);
        lemma_concat_plain(seq!['-'], zero_padded((-y) as nat, 4));
    }
    let t = stamp_text(s);
    let p = year_text(y);
    lemma_concat_plain(p, zero_padded(s.month as nat, 2));
    let p = p + zero_padded(s.month as nat, 2);
    lemma_concat_plain(p, zero_padded(s.day as nat, 2));
    let p = p + zero_padded(s.day as nat, 2);
    lemma_concat_plain(p, seq!['_']);
    let p = p + seq!['_'];
    lemma_concat_plain(p, zero_padded(s.hour as nat, 2));
    let p = p + zero_padded(s.hour as nat, 2);
    lemma_concat_plain(p, zero_padded(s.minute as nat, 2));
    let p = p + zero_padded(s.minute as nat, 2);
    lemma_concat_plain(p, zero_padded(s.second as nat, 2));
    assert(no_separator("FlashScreen_"@));
    assert(no_separator(".mp4"@));
    lemma_concat_plain("FlashScreen_"@, t);
    lemma_concat_plain("FlashScreen_"@ + t, ".mp4"@);
    assert(file_name(s)[0] == 'F');
}

/// The timestamp text `YYYYMMDD_HHMMSS` of `s`.
pub fn format_stamp(s: &LocalStamp) -> (r: String)
    ensures
        r@ == stamp_text(*s),
{
    let mut out = String::new();
    let ghost start = out@;
    if 0 <= s.year && s.year <= 9999 {
        push_zero_padded(&mut out, s.year as u64, 4);
    } else if s.year > 9999 {
        proof {
            reveal_strlit("+");
            assert("+"@ =~= seq!['+']);
        }
        out.append("+");
        push_zero_padded(&mut out, s.year as u64, 4);
    } else {
        proof {
            reveal_strlit("-");
            assert("-"@ =~= seq!['-']);
        }
        out.append("-");
        let magnitude: u64 = (-(s.year as i64)) as u64;
        push_zero_padded(&mut out, magnitude, 4);
    }
    assert(out@ =~= year_text(s.year as int));
    push_zero_padded(&mut out, s.month as u64, 2);
    push_zero_padded(&mut out, s.day as u64, 2);
    proof {
        reveal_strlit("_");
        assert("_"@ =~= seq!['_']);
    }
    out.append("_");
    push_zero_padded(&mut out, s.hour as u64, 2);
    push_zero_padded(&mut out, s.minute as u64, 2);
    push_zero_padded(&mut out, s.second as u64, 2);
    assert(out@ =~= stamp_text(*s));
    out
}

/// `FlashScreen_YYYYMMDD_HHMMSS.mp4` for the time `s`.
pub fn recording_file_name(s: &LocalStamp) -> (r: String)
    ensures
        r@ == file_name(*s),
        plain_component(r@),
{
    let mut name = String::from_str("FlashScreen_");
    let stamp = format_stamp(s);
    name.append(stamp.as_str());
    name.append(".mp4");
    proof {
        lemma_file_name_plain(*s);
    }
    assert(name@ =~= file_name(*s));
    name
}

} // verus!
