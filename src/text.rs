//! Line splitting and trimming of the tool's textual output.

use vstd::prelude::*;

verus! {

/// Characters with the Unicode `White_Space` property.
pub open spec fn is_white_space(c: char) -> bool {
    let u = c as u32;
    ||| 0x09 <= u <= 0x0D
    ||| u == 0x20
    ||| u == 0x85
    ||| u == 0xA0
    ||| u == 0x1680
    ||| 0x2000 <= u <= 0x200A
    ||| u == 0x2028
    ||| u == 0x2029
    ||| u == 0x202F
    ||| u == 0x205F
    ||| u == 0x3000
}

/// `s` without its leading white space.
pub open spec fn trim_start(s: Seq<char>) -> Seq<char>
    decreases s.len(),
{
    if s.len() > 0 && is_white_space(s[0]) {
        trim_start(s.drop_first())
    } else {
        s
    }
}

/// `s` without its trailing white space.
pub open spec fn trim_end(s: Seq<char>) -> Seq<char>
    decreases s.len(),
{
    if s.len() > 0 && is_white_space(s.last()) {
        trim_end(s.drop_last())
    } else {
        s
    }
}

/// `s` without leading and trailing white space.
pub open spec fn trim(s: Seq<char>) -> Seq<char> {
    trim_end(trim_start(s))
}

/// Tells whether `c` is a white-space character.
pub fn is_white_space_char(c: char) -> (r: bool)
    ensures
        r == is_white_space(c),
{
    let u = c as u32;
    (0x09 <= u && u <= 0x0D) || u == 0x20 || u == 0x85 || u == 0xA0 || u == 0x1680
        || (0x2000 <= u && u <= 0x200A) || u == 0x2028 || u == 0x2029 || u == 0x202F
        || u == 0x205F || u == 0x3000
}

/// The characters of `s`, in order.
pub(crate) fn chars_of(s: &str) -> (r: Vec<char>)
    ensures
        r@ == s@,
{
    let mut r: Vec<char> = Vec::new();
    for c in it: s.chars()
        invariant
            it.seq() == s@,
            r@ == it.seq().take(it.index() as int),
    {
        r.push(c);
    }
    r
}

/// Bounds `(lo, hi)` such that `cs[lo..hi]` is `cs[from..to]` trimmed.
fn trim_bounds(cs: &Vec<char>, from: usize, to: usize) -> (r: (usize, usize))
    requires
        from <= to <= cs@.len(),
    ensures
        from <= r.0 <= r.1 <= to,
        cs@.subrange(r.0 as int, r.1 as int) == trim(cs@.subrange(from as int, to as int)),
{
    let ghost s = cs@.subrange(from as int, to as int);
    let mut lo = from;
    while lo < to && is_white_space_char(cs[lo])
        invariant
            from <= lo <= to <= cs@.len(),
            trim_start(s) == trim_start(cs@.subrange(lo as int, to as int)),
        decreases to - lo,
    {
        assert(cs@.subrange(lo as int, to as int).drop_first() =~= cs@.subrange(
            lo + 1,
            to as int,
        ));
        lo = lo + 1;
    }
    let mut hi = to;
    while hi > lo && is_white_space_char(cs[hi - 1])
        invariant
            from <= lo <= hi <= to <= cs@.len(),
            trim_start(s) == cs@.subrange(lo as int, to as int),
            trim(s) == trim_end(cs@.subrange(lo as int, hi as int)),
        decreases hi - lo,
    {
        assert(cs@.subrange(lo as int, hi as int).drop_last() =~= cs@.subrange(
            lo as int,
            hi - 1,
        ));
        hi = hi - 1;
    }
    (lo, hi)
}

/// The pieces of `s` between line feeds, in order. A text without line
/// feed is one piece; a text that ends in a line feed ends in an empty piece.
pub open spec fn split_lines(s: Seq<char>) -> Seq<Seq<char>>
    decreases s.len(),
{
    if s.len() == 0 {
        seq![Seq::empty()]
    } else {
        let prev = split_lines(s.drop_last());
        if s.last() == '\n' {
            prev.push(Seq::empty())
        } else {
            prev.update(prev.len() - 1, prev.last().push(s.last()))
        }
    }
}

/// The lines of `s`, each trimmed, without those left empty, in order.
pub open spec fn parsed_lines(s: Seq<char>) -> Seq<Seq<char>> {
    split_lines(s).map_values(|l: Seq<char>| trim(l)).filter(|l: Seq<char>| l.len() > 0)
}

/// The parsed lines of a text are the non-empty ones among its trimmed lines,
/// so there are no more of them than the text has lines.
pub proof fn lemma_parsed_lines_bounded(s: Seq<char>)
    ensures
        parsed_lines(s).len() <= split_lines(s).len(),
        forall|i: int| 0 <= i < parsed_lines(s).len() ==> #[trigger] parsed_lines(s)[i].len() > 0,
{
    let trimmed = split_lines(s).map_values(|l: Seq<char>| trim(l));
    let keep = |l: Seq<char>| l.len() > 0;
    trimmed.lemma_filter_len(keep);
    assert forall|i: int| 0 <= i < parsed_lines(s).len() implies #[trigger] parsed_lines(s)[i].len()
        > 0 by {
        trimmed.lemma_filter_pred(keep, i);
    }
}

/// The views of a vector of strings.
pub open spec fn views(v: Seq<String>) -> Seq<Seq<char>> {
    v.map_values(|l: String| l@)
}

/// Appends `cs[from..to]`, trimmed, to `out` unless nothing is left of it.
fn push_trimmed(text: &str, cs: &Vec<char>, from: usize, to: usize, out: &mut Vec<String>)
    requires
        cs@ == text@,
        from <= to <= cs@.len(),
    ensures
        views(final(out)@) == if trim(cs@.subrange(from as int, to as int)).len() > 0 {
            views(old(out)@).push(trim(cs@.subrange(from as int, to as int)))
        } else {
            views(old(out)@)
        },
{
    let (lo, hi) = trim_bounds(cs, from, to);
    if lo < hi {
        let line = text.substring_char(lo, hi).to_owned();
        out.push(line);
        assert(views(final(out)@) =~= views(old(out)@).push(line@));
    } else {
        assert(cs@.subrange(lo as int, hi as int).len() == 0);
    }
}

/// Splits `text` into lines, trims each and drops those left empty.
pub fn parse_lines(text: &str) -> (r: Vec<String>)
    ensures
        views(r@) == parsed_lines(text@),
{
    let cs = chars_of(text);
    let n = cs.len();
    let ghost trim_fn = |l: Seq<char>| trim(l);
    let ghost keep = |l: Seq<char>| l.len() > 0;
    let mut out: Vec<String> = Vec::new();
    let mut start: usize = 0;
    let mut i: usize = 0;
    let ghost mut done: Seq<Seq<char>> = Seq::empty();
    assert(cs@.subrange(0, 0) =~= Seq::<char>::empty());
    while i < n
        invariant
            n == cs@.len(),
            cs@ == text@,
            trim_fn == (|l: Seq<char>| trim(l)),
            keep == (|l: Seq<char>| l.len() > 0),
            start <= i <= n,
            split_lines(cs@.subrange(0, i as int)) == done.push(
                cs@.subrange(start as int, i as int),
            ),
            views(out@) == done.map_values(trim_fn).filter(keep),
        decreases n - i,
    {
        let ghost cur = cs@.subrange(start as int, i as int);
        assert(cs@.subrange(0, i + 1).drop_last() =~= cs@.subrange(0, i as int));
        if cs[i] == '\n' {
            push_trimmed(text, &cs, start, i, &mut out);
            proof {
                done.lemma_push_map_commute(trim_fn, cur);
                done.map_values(trim_fn).lemma_filter_push(trim(cur), keep);
                done = done.push(cur);
            }
            start = i + 1;
            assert(cs@.subrange(start as int, i + 1) =~= Seq::<char>::empty());
        } else {
            assert(cs@.subrange(start as int, i + 1) =~= cur.push(cs@[i as int]));
            assert(done.push(cur).update(done.len() as int, cur.push(cs@[i as int]))
                =~= done.push(cs@.subrange(start as int, i + 1)));
        }
        i = i + 1;
    }
    let ghost cur = cs@.subrange(start as int, n as int);
    push_trimmed(text, &cs, start, n, &mut out);
    proof {
        done.lemma_push_map_commute(trim_fn, cur);
        done.map_values(trim_fn).lemma_filter_push(trim(cur), keep);
        assert(cs@.subrange(0, n as int) =~= cs@);
    }
    out
}

/// `s` with leading and trailing white space removed.
pub fn trim_text(s: &str) -> (r: String)
    ensures
        r@ == trim(s@),
{
    let cs = chars_of(s);
    let (lo, hi) = trim_bounds(&cs, 0, cs.len());
    assert(cs@.subrange(0, cs@.len() as int) =~= s@);
    s.substring_char(lo, hi).to_owned()
}

/// What `String::from_utf8_lossy` makes of a byte sequence.
pub uninterp spec fn lossy_utf8(b: Seq<u8>) -> Seq<char>;

/// Relies on `String::from_utf8_lossy`: the decoded text depends on the bytes
/// alone, and no bytes give no text.
#[verifier::external_body]
fn decode_lossy(b: &[u8]) -> (r: String)
    ensures
        r@ == lossy_utf8(b@),
        b@.len() == 0 ==> r@.len() == 0,
{
    String::from_utf8_lossy(b).into_owned()
}

/// The lines of a command's standard output: decoded as UTF-8 (invalid
/// sequences replaced), split, trimmed, and without the empty ones.
pub fn read_output(stdout: &[u8]) -> (r: Vec<String>)
    ensures
        views(r@) == parsed_lines(lossy_utf8(stdout@)),
{
    let text = decode_lossy(stdout);
    parse_lines(text.as_str())
}

} // verus!
