//! Sequence-level vocabulary for the string handling of this crate: where a
//! separator last occurs, how a text splits into pieces at a separator, and
//! how pieces join back. Contracts elsewhere are stated over these functions.

use vstd::prelude::*;

verus! {

/// Index of the last occurrence of `c` in `s`, or `-1` when `c` does not occur.
pub open spec fn last_index_of(s: Seq<char>, c: char) -> int
    decreases s.len(),
{
    if s.len() == 0 {
        -1
    } else if s.last() == c {
        s.len() - 1
    } else {
        last_index_of(s.drop_last(), c)
    }
}

/// The pieces of `s` between occurrences of `sep`, in order. A text without
/// `sep` is a single piece; `n` separators give `n + 1` pieces, some of which
/// may be empty.
pub open spec fn split_on(s: Seq<char>, sep: char) -> Seq<Seq<char>>
    decreases s.len(),
{
    let p = last_index_of(s, sep);
    if 0 <= p < s.len() {
        split_on(s.take(p), sep).push(s.skip(p + 1))
    } else {
        seq![s]
    }
}

/// The pieces written one after another with `sep` between neighbours.
pub open spec fn join_with(parts: Seq<Seq<char>>, sep: Seq<char>) -> Seq<char>
    decreases parts.len(),
{
    if parts.len() == 0 {
        Seq::empty()
    } else if parts.len() == 1 {
        parts[0]
    } else {
        join_with(parts.drop_last(), sep) + sep + parts.last()
    }
}

/// `last_index_of` returns a position that holds `c`, after which `c` does not
/// occur again, or `-1` exactly when `c` occurs nowhere.
pub proof fn lemma_last_index_of(s: Seq<char>, c: char)
    ensures
        -1 <= last_index_of(s, c) < s.len(),
        last_index_of(s, c) >= 0 ==> s[last_index_of(s, c)] == c,
        forall|j: int| last_index_of(s, c) < j < s.len() ==> s[j] != c,
    decreases s.len(),
{
    if s.len() > 0 && s.last() != c {
        let front = s.drop_last();
        lemma_last_index_of(front, c);
        assert forall|j: int| last_index_of(s, c) < j < s.len() implies s[j] != c by {
            if j < front.len() {
                assert(front[j] == s[j]);
            }
        }
    }
}

/// A split always has at least one piece, and exactly one when the separator
/// does not occur.
pub proof fn lemma_split_len(s: Seq<char>, sep: char)
    ensures
        split_on(s, sep).len() >= 1,
        split_on(s, sep).len() == 1 <==> last_index_of(s, sep) < 0,
    decreases s.len(),
{
    lemma_last_index_of(s, sep);
    let p = last_index_of(s, sep);
    if 0 <= p {
        lemma_split_len(s.take(p), sep);
    }
}

/// Joining the pieces of a split with the same separator gives the text back.
pub proof fn lemma_join_split(s: Seq<char>, sep: char)
    ensures
        join_with(split_on(s, sep), seq![sep]) == s,
    decreases s.len(),
{
    lemma_last_index_of(s, sep);
    let p = last_index_of(s, sep);
    if 0 <= p {
        let head = split_on(s.take(p), sep);
        lemma_split_len(s.take(p), sep);
        lemma_join_split(s.take(p), sep);
        assert(head.push(s.skip(p + 1)).drop_last() == head);
        assert(s.take(p) + seq![sep] + s.skip(p + 1) == s);
    }
}

/// Where the separator occurs at least twice, the last two pieces of the split
/// are what follows the second-to-last separator, and the pieces before them
/// are the split of what precedes it.
pub proof fn lemma_split_tail(s: Seq<char>, sep: char)
    requires
        last_index_of(s, sep) >= 0,
        last_index_of(s.take(last_index_of(s, sep)), sep) >= 0,
    ensures
        ({
            let last = last_index_of(s, sep);
            let prev = last_index_of(s.take(last), sep);
            let parts = split_on(s, sep);
            &&& 0 <= prev < last < s.len()
            &&& parts.len() >= 3
            &&& parts.take(parts.len() - 2) == split_on(s.take(prev), sep)
            &&& join_with(parts.take(parts.len() - 2), seq![sep]) == s.take(prev)
            &&& join_with(parts.skip(parts.len() - 2), seq![sep]) == s.skip(prev + 1)
        }),
{
    let last = last_index_of(s, sep);
    lemma_last_index_of(s, sep);
    let a = s.take(last);
    let prev = last_index_of(a, sep);
    lemma_last_index_of(a, sep);
    let front = split_on(s.take(prev), sep);
    lemma_split_len(s.take(prev), sep);
    lemma_join_split(s.take(prev), sep);
    assert(a.take(prev) == s.take(prev));
    let parts = split_on(s, sep);
    assert(split_on(a, sep) == front.push(a.skip(prev + 1)));
    assert(parts == front.push(a.skip(prev + 1)).push(s.skip(last + 1)));
    assert(parts.take(parts.len() - 2) == front);
    let tail = parts.skip(parts.len() - 2);
    assert(tail == seq![a.skip(prev + 1), s.skip(last + 1)]);
    assert(tail.drop_last() == seq![a.skip(prev + 1)]);
    assert(join_with(tail.drop_last(), seq![sep]) == a.skip(prev + 1));
    assert(a.skip(prev + 1) + seq![sep] + s.skip(last + 1) == s.skip(prev + 1));
}

/// Where the separator occurs, the last two pieces of the split are what lies
/// between the last two separators (or before the only one) and what follows
/// the last one.
pub proof fn lemma_split_last_two(s: Seq<char>, sep: char)
    requires
        last_index_of(s, sep) >= 0,
    ensures
        ({
            let last = last_index_of(s, sep);
            let prev = last_index_of(s.take(last), sep);
            let parts = split_on(s, sep);
            &&& -1 <= prev < last < s.len()
            &&& parts.len() >= 2
            &&& (parts.len() == 2 <==> prev < 0)
            &&& parts[parts.len() - 2] + seq![sep] + parts[parts.len() - 1] == s.skip(prev + 1)
        }),
{
    let last = last_index_of(s, sep);
    lemma_last_index_of(s, sep);
    let a = s.take(last);
    let prev = last_index_of(a, sep);
    lemma_last_index_of(a, sep);
    lemma_split_len(a, sep);
    let parts = split_on(s, sep);
    assert(parts == split_on(a, sep).push(s.skip(last + 1)));
    if prev >= 0 {
        assert(split_on(a, sep) == split_on(a.take(prev), sep).push(a.skip(prev + 1)));
        assert(parts[parts.len() - 2] == a.skip(prev + 1));
        assert(a.skip(prev + 1) + seq![sep] + s.skip(last + 1) == s.skip(prev + 1));
    } else {
        assert(split_on(a, sep) == seq![a]);
        assert(a + seq![sep] + s.skip(last + 1) == s.skip(0));
    }
}

/// Positions found by one pass over a text: its length in characters, where
/// the separator occurs last, and where it occurs last before that.
pub struct SeparatorScan {
    pub len: usize,
    pub last: Option<usize>,
    pub prev: Option<usize>,
}

/// `Some(p)` stands for position `p`, `None` for "no such position".
pub open spec fn position_of(found: Option<usize>) -> int {
    match found {
        Some(p) => p as int,
        None => -1,
    }
}

/// Scans `text` once for `sep` and reports its last two occurrences.
pub fn scan_separators(text: &str, sep: char) -> (scan: SeparatorScan)
    ensures
        scan.len == text@.len(),
        position_of(scan.last) == last_index_of(text@, sep),
        scan.last is Some ==> position_of(scan.prev) == last_index_of(
            text@.take(position_of(scan.last)),
            sep,
        ),
        scan.last is None ==> scan.prev is None,
{
    let n = text.unicode_len();
    let mut i: usize = 0;
    let mut last: Option<usize> = None;
    let mut prev: Option<usize> = None;
    for c in it: text.chars()
        invariant
            i == it.index(),
            it.seq() == text@,
            n == text@.len(),
            position_of(last) == last_index_of(text@.take(i as int), sep),
            last is Some ==> position_of(prev) == last_index_of(
                text@.take(position_of(last)),
                sep,
            ),
            last is None ==> prev is None,
    {
        proof {
            assert(text@.take(i + 1).drop_last() == text@.take(i as int));
            lemma_last_index_of(text@.take(i as int), sep);
        }
        if c == sep {
            prev = last;
            last = Some(i);
        }
        i = i + 1;
    }
    proof {
        assert(text@.take(i as int) == text@);
    }
    SeparatorScan { len: n, last, prev }
}

/// Whether two texts hold the same characters.
pub fn same_text(a: &str, b: &str) -> (same: bool)
    ensures
        same == (a@ == b@),
{
    let left = String::from_str(a);
    let right = String::from_str(b);
    left == right
}

/// The character that writes the digit `d`.
pub open spec fn digit_char(d: int) -> char {
    if d == 0 {
        '0'
    } else if d == 1 {
        '1'
    } else if d == 2 {
        '2'
    } else if d == 3 {
        '3'
    } else if d == 4 {
        '4'
    } else if d == 5 {
        '5'
    } else if d == 6 {
        '6'
    } else if d == 7 {
        '7'
    } else if d == 8 {
        '8'
    } else {
        '9'
    }
}

/// The decimal digits of a natural number, most significant first, without
/// leading zeros.
pub open spec fn digits(n: nat) -> Seq<char>
    decreases n,
{
    if n < 10 {
        seq![digit_char(n as int)]
    } else {
        digits(n / 10).push(digit_char((n % 10) as int))
    }
}

/// The decimal writing of an integer: its digits, after a minus sign where it
/// is negative.
pub open spec fn decimal(n: int) -> Seq<char> {
    if n < 0 {
        seq!['-'] + digits((-n) as nat)
    } else {
        digits(n as nat)
    }
}

/// The one-character text of a digit.
fn digit_text(d: u64) -> (text: &'static str)
    requires
        d < 10,
    ensures
        text@ == seq![digit_char(d as int)],
{
    proof {
        reveal_strlit("0");
        reveal_strlit("1");
        reveal_strlit("2");
        reveal_strlit("3");
        reveal_strlit("4");
        reveal_strlit("5");
        reveal_strlit("6");
        reveal_strlit("7");
        reveal_strlit("8");
        reveal_strlit("9");
    }
    let text = if d == 0 {
        "0"
    } else if d == 1 {
        "1"
    } else if d == 2 {
        "2"
    } else if d == 3 {
        "3"
    } else if d == 4 {
        "4"
    } else if d == 5 {
        "5"
    } else if d == 6 {
        "6"
    } else if d == 7 {
        "7"
    } else if d == 8 {
        "8"
    } else {
        "9"
    };
    assert(text@ =~= seq![digit_char(d as int)]);
    text
}

/// Appends the decimal digits of `n` to `out`.
fn append_digits(out: &mut String, n: u64)
    ensures
        final(out)@ == old(out)@ + digits(n as nat),
    decreases n,
{
    if n >= 10 {
        append_digits(out, n / 10);
    }
    out.append(digit_text(n % 10));
    assert(out@ =~= old(out)@ + digits(n as nat));
}

/// Writes an integer in decimal.
pub fn render_i32(n: i32) -> (text: String)
    ensures
        text@ == decimal(n as int),
{
    let mut out = String::new();
    if n < 0 {
        out.append("-");
        proof {
            reveal_strlit("-");
        }
        let magnitude: u64 = (-(n as i64)) as u64;
        append_digits(&mut out, magnitude);
        assert(out@ =~= decimal(n as int));
    } else {
        append_digits(&mut out, n as u64);
        assert(out@ =~= decimal(n as int));
    }
    out
}

/// Whether a character is white space, as `char::is_whitespace` of the
/// standard library decides it (the Unicode property `White_Space`).
pub uninterp spec fn is_white_space(c: char) -> bool;

/// Calls `char::is_whitespace` of the standard library, which depends on the
/// character alone; the result is what `is_white_space` names.
#[verifier::external_body]
fn char_is_whitespace(c: char) -> (white: bool)
    ensures
        white == is_white_space(c),
{
    c.is_whitespace()
}

/// A text without its leading white space.
pub open spec fn trim_start(s: Seq<char>) -> Seq<char>
    decreases s.len(),
{
    if s.len() > 0 && is_white_space(s[0]) {
        trim_start(s.drop_first())
    } else {
        s
    }
}

/// A text without its trailing white space.
pub open spec fn trim_end(s: Seq<char>) -> Seq<char>
    decreases s.len(),
{
    if s.len() > 0 && is_white_space(s.last()) {
        trim_end(s.drop_last())
    } else {
        s
    }
}

/// A text without its leading and trailing white space.
pub open spec fn trimmed(s: Seq<char>) -> Seq<char> {
    trim_end(trim_start(s))
}

/// Where the first `k` characters are white space and the next one is not,
/// trimming the start drops exactly those `k`.
proof fn lemma_trim_start(s: Seq<char>, k: int)
    requires
        0 <= k <= s.len(),
        forall|j: int| 0 <= j < k ==> is_white_space(#[trigger] s[j]),
        k < s.len() ==> !is_white_space(s[k]),
    ensures
        trim_start(s) == s.skip(k),
    decreases k,
{
    if k > 0 {
        let rest = s.drop_first();
        assert forall|j: int| 0 <= j < k - 1 implies is_white_space(#[trigger] rest[j]) by {
            assert(rest[j] == s[j + 1]);
        }
        lemma_trim_start(rest, k - 1);
        assert(rest.skip(k - 1) == s.skip(k));
    } else {
        assert(s.skip(0) == s);
    }
}

/// Where everything from position `m` on is white space and the character
/// before it is not, trimming the end keeps exactly the first `m`.
proof fn lemma_trim_end(s: Seq<char>, m: int)
    requires
        0 <= m <= s.len(),
        forall|j: int| m <= j < s.len() ==> is_white_space(#[trigger] s[j]),
        m > 0 ==> !is_white_space(s[m - 1]),
    ensures
        trim_end(s) == s.take(m),
    decreases s.len() - m,
{
    if m < s.len() {
        let front = s.drop_last();
        assert forall|j: int| m <= j < front.len() implies is_white_space(#[trigger] front[j]) by {
            assert(front[j] == s[j]);
        }
        lemma_trim_end(front, m);
        assert(front.take(m) == s.take(m));
    } else {
        assert(s.take(m) == s);
    }
}

/// Removes the leading and trailing white space of a text.
pub fn trim(text: &str) -> (out: String)
    ensures
        out@ == trimmed(text@),
{
    let n = text.unicode_len();
    let mut i: usize = 0;
    let mut first: Option<usize> = None;
    let mut end: usize = 0;
    for c in it: text.chars()
        invariant
            i == it.index(),
            it.seq() == text@,
            n == text@.len(),
            end <= i,
            match first {
                None => end == 0 && forall|j: int| 0 <= j < i ==> is_white_space(#[trigger] text@[j]),
                Some(f) => {
                    &&& f < end
                    &&& forall|j: int| 0 <= j < f ==> is_white_space(#[trigger] text@[j])
                    &&& !is_white_space(text@[f as int])
                    &&& !is_white_space(text@[end - 1])
                    &&& forall|j: int| end <= j < i ==> is_white_space(#[trigger] text@[j])
                },
            },
    {
        if !char_is_whitespace(c) {
            if first.is_none() {
                first = Some(i);
            }
            end = i + 1;
        }
        i = i + 1;
    }
    match first {
        None => {
            proof {
                lemma_trim_start(text@, n as int);
                assert(text@.skip(n as int) =~= Seq::<char>::empty());
            }
            String::new()
        },
        Some(f) => {
            proof {
                lemma_trim_start(text@, f as int);
                let rest = text@.skip(f as int);
                assert forall|j: int| end - f <= j < rest.len() implies is_white_space(
                    #[trigger] rest[j],
                ) by {
                    assert(rest[j] == text@[j + f]);
                }
                assert(rest[end - f - 1] == text@[end - 1]);
                lemma_trim_end(rest, end - f);
                assert(rest.take(end - f) == text@.subrange(f as int, end as int));
            }
            String::from_str(text.substring_char(f, end))
        },
    }
}

} // verus!
