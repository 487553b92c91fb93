//! The three status fields read from the tool's status report.

use vstd::prelude::*;
use crate::text::{chars_of, views};

verus! {

/// `m` occurs in `s` as a run of consecutive characters.
pub open spec fn has_substring(s: Seq<char>, m: Seq<char>) -> bool {
    exists|i: int| 0 <= i && i + m.len() <= s.len() && #[trigger] s.subrange(i, i + m.len()) == m
}

/// The first of `lines` that contains `marker`, or `fallback` when none does.
pub open spec fn field_text(lines: Seq<Seq<char>>, marker: Seq<char>, fallback: Seq<char>) -> Seq<
    char,
>
    decreases lines.len(),
{
    if lines.len() == 0 {
        fallback
    } else if has_substring(lines[0], marker) {
        lines[0]
    } else {
        field_text(lines.drop_first(), marker, fallback)
    }
}

/// `cs[i..i + ms.len()]` equals `ms`.
fn matches_at(cs: &Vec<char>, ms: &Vec<char>, i: usize) -> (r: bool)
    requires
        i + ms@.len() <= cs@.len(),
    ensures
        r == (cs@.subrange(i as int, i + ms@.len()) == ms@),
{
    let m = ms.len();
    for j in 0..m
        invariant
            m == ms.len(),
            i + m <= cs.len(),
            forall|k: int| 0 <= k < j ==> cs@[i + k] == ms@[k],
    {
        if cs[i + j] != ms[j] {
            assert(cs@.subrange(i as int, i + m)[j as int] != ms@[j as int]);
            return false;
        }
    }
    assert(cs@.subrange(i as int, i + m) =~= ms@);
    true
}

/// Tells whether `marker` occurs in `s`.
pub fn contains_text(s: &str, marker: &str) -> (r: bool)
    ensures
        r == has_substring(s@, marker@),
{
    let cs = chars_of(s);
    let ms = chars_of(marker);
    if ms.len() > cs.len() {
        return false;
    }
    let last = cs.len() - ms.len();
    let mut i: usize = 0;
    while i <= last
        invariant
            cs@ == s@,
            ms@ == marker@,
            last == cs@.len() - ms@.len(),
            i <= last + 1,
            forall|k: int| 0 <= k < i ==> #[trigger] cs@.subrange(k, k + ms@.len()) != ms@,
        decreases last + 1 - i,
    {
        if matches_at(&cs, &ms, i) {
            return true;
        }
        if i == last {
            return false;
        }
        i = i + 1;
    }
    false
}

/// The first of `lines` that contains `marker`, or `fallback` when none does.
pub fn find_field(lines: &Vec<String>, marker: &str, fallback: &str) -> (r: String)
    ensures
        r@ == field_text(views(lines@), marker@, fallback@),
{
    let n = lines.len();
    assert(views(lines@).subrange(0, n as int) =~= views(lines@));
    for i in 0..n
        invariant
            n == lines@.len(),
            field_text(views(lines@), marker@, fallback@) == field_text(
                views(lines@).subrange(i as int, n as int),
                marker@,
                fallback@,
            ),
    {
        let ghost rest = views(lines@).subrange(i as int, n as int);
        assert(rest[0] == lines@[i as int]@);
        assert(rest.drop_first() =~= views(lines@).subrange(i + 1, n as int));
        if contains_text(lines[i].as_str(), marker) {
            return lines[i].clone();
        }
    }
    fallback.to_owned()
}

/// One reading of the temperature and fan-speed lines.
pub struct StatusSnapshot {
    pub temperature: String,
    pub current_fan_speed: String,
    pub target_fan_speed: String,
}

/// The temperature line of a status report.
pub open spec fn temperature_of(lines: Seq<Seq<char>>) -> Seq<char> {
    field_text(lines, "Temperature"@, "Unknown Temp"@)
}

/// The current fan-speed line of a status report.
pub open spec fn current_speed_of(lines: Seq<Seq<char>>) -> Seq<char> {
    field_text(lines, "Current Fan Speed"@, "Unknown Speed"@)
}

/// The target fan-speed line of a status report.
pub open spec fn target_speed_of(lines: Seq<Seq<char>>) -> Seq<char> {
    field_text(lines, "Target Fan Speed"@, "Unknown Speed"@)
}

impl StatusSnapshot {
    /// The snapshot's three fields as text.
    pub open spec fn fields(&self) -> (Seq<char>, Seq<char>, Seq<char>) {
        (self.temperature@, self.current_fan_speed@, self.target_fan_speed@)
    }

    /// The snapshot that a status report gives.
    pub open spec fn of_lines(lines: Seq<Seq<char>>) -> (Seq<char>, Seq<char>, Seq<char>) {
        (temperature_of(lines), current_speed_of(lines), target_speed_of(lines))
    }

    /// Reads the three fields from the lines of a status report; each field
    /// that no line holds gets its own fallback text.
    pub fn from_lines(lines: &Vec<String>) -> (r: StatusSnapshot)
        ensures
            r.fields() == Self::of_lines(views(lines@)),
    {
        StatusSnapshot {
            temperature: find_field(lines, "Temperature", "Unknown Temp"),
            current_fan_speed: find_field(lines, "Current Fan Speed", "Unknown Speed"),
            target_fan_speed: find_field(lines, "Target Fan Speed", "Unknown Speed"),
        }
    }
}

} // verus!
