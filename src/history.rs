//! The lines of build history shown on screen.

use vstd::prelude::*;
use crate::text::{decimal, decimal_of, push_char};

verus! {

/// When a build event was recorded, in UTC.
pub struct BuildTime {
    pub year: u32,
    pub month: u32,
    pub day: u32,
    pub hour: u32,
    pub minute: u32,
}

/// `n` in decimal, with zeros in front up to `width` characters.
pub open spec fn padded(n: nat, width: nat) -> Seq<char> {
    let d = decimal_of(n);
    if d.len() < width {
        Seq::new((width - d.len()) as nat, |i: int| '0') + d
    } else {
        d
    }
}

/// The time as `YYYY-MM-DD HH:MM`.
pub open spec fn time_text(t: BuildTime) -> Seq<char> {
    padded(t.year as nat, 4) + "-"@ + padded(t.month as nat, 2) + "-"@ + padded(t.day as nat, 2)
        + " "@ + padded(t.hour as nat, 2) + ":"@ + padded(t.minute as nat, 2)
}

/// One history line: project, language and time.
pub open spec fn history_text(project: Seq<char>, language: Seq<char>, t: BuildTime) -> Seq<char> {
    project + " - "@ + language + " - "@ + time_text(t)
}

fn append_padded(s: &mut String, n: u32, width: usize)
    ensures
        final(s)@ == old(s)@ + padded(n as nat, width as nat),
{
    let d = decimal(n as usize);
    let len = d.unicode_len();
    let ghost start = s@;
    let mut k: usize = len;
    while k < width
        invariant
            len == decimal_of(n as nat).len(),
            len <= k,
            k <= width || len >= width,
            len >= width ==> k == len,
            s@ == start + Seq::new((k - len) as nat, |i: int| '0'),
        decreases width - k,
    {
        push_char(s, '0');
        k = k + 1;
        assert(s@ =~= start + Seq::new((k - len) as nat, |i: int| '0'));
    }
    s.append(d.as_str());
    proof {
        if len < width {
            assert(k == width);
            assert(s@ =~= start + padded(n as nat, width as nat));
        } else {
            assert(k == len);
            assert(s@ =~= start + padded(n as nat, width as nat));
        }
    }
}

/// The history line of a build event.
pub fn history_line(project: &str, language: &str, t: &BuildTime) -> (r: String)
    ensures
        r@ == history_text(project@, language@, *t),
{
    let mut s = String::from_str(project);
    s.append(" - ");
    s.append(language);
    s.append(" - ");
    append_padded(&mut s, t.year, 4);
    s.append("-");
    append_padded(&mut s, t.month, 2);
    s.append("-");
    append_padded(&mut s, t.day, 2);
    s.append(" ");
    append_padded(&mut s, t.hour, 2);
    s.append(":");
    append_padded(&mut s, t.minute, 2);
    assert(s@ =~= history_text(project@, language@, *t));
    s
}

} // verus!
