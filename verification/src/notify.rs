//! Preparing the text of a chat notification.

use vstd::prelude::*;

verus! {

/// Whether a character must be escaped in a MarkdownV2 message.
pub open spec fn is_markdown_special(c: char) -> bool {
    c == '_' || c == '[' || c == ']' || c == '(' || c == ')' || c == '-' || c == '.' || c == '!'
}

/// A text with a backslash in front of every special character.
pub open spec fn escaped(s: Seq<char>) -> Seq<char>
    decreases s.len(),
{
    if s.len() == 0 {
        Seq::empty()
    } else if is_markdown_special(s.last()) {
        escaped(s.drop_last()) + seq!['\\', s.last()]
    } else {
        escaped(s.drop_last()) + seq![s.last()]
    }
}

/// Escapes a text for a MarkdownV2 message: every `_`, `[`, `]`, `(`, `)`,
/// `-`, `.` and `!` gets a backslash in front; nothing else changes.
pub fn format_md2(text: &str) -> (out: String)
    ensures
        out@ == escaped(text@),
{
    let n = text.unicode_len();
    let mut out = String::new();
    let mut i: usize = 0;
    let mut start: usize = 0;
    for c in it: text.chars()
        invariant
            i == it.index(),
            it.seq() == text@,
            n == text@.len(),
            start <= i,
            out@ + text@.subrange(start as int, i as int) == escaped(text@.take(i as int)),
    {
        proof {
            assert(text@.take(i + 1).drop_last() == text@.take(i as int));
            assert(text@.subrange(start as int, i + 1) == text@.subrange(start as int, i as int)
                + seq![c]);
        }
        let special = c == '_' || c == '[' || c == ']' || c == '(' || c == ')' || c == '-' || c
            == '.' || c == '!';
        if special {
            let ghost before = out@;
            out.append(text.substring_char(start, i));
            out.append("\\");
            proof {
                reveal_strlit("\\");
                assert(text@.subrange(i as int, i + 1) == seq![c]);
                assert(out@ + seq![c] == before + text@.subrange(start as int, i as int) + seq![
                    '\\',
                    c,
                ]);
            }
            start = i;
        }
        i = i + 1;
    }
    proof {
        assert(text@.take(i as int) == text@);
    }
    out.append(text.substring_char(start, n));
    out
}

} // verus!
