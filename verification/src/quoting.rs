//! Quoting of user-typed text for error messages.
//!
//! When a command names a verb nobody knows, the message shown echoes the
//! offending text, wrapped in double quotes with the quote, the backslash
//! and the common control characters escaped, so that the message stays a
//! single readable line whatever the user typed.

use vstd::prelude::*;

verus! {

/// How one character appears inside a quoted message.
pub open spec fn escaped_char(c: char) -> Seq<char> {
    if c == '"' {
        seq!['\\', '"']
    } else if c == '\\' {
        seq!['\\', '\\']
    } else if c == '\n' {
        seq!['\\', 'n']
    } else if c == '\r' {
        seq!['\\', 'r']
    } else if c == '\t' {
        seq!['\\', 't']
    } else {
        seq![c]
    }
}

/// `s` with every character escaped as `escaped_char` says.
pub open spec fn escaped(s: Seq<char>) -> Seq<char>
    decreases s.len(),
{
    if s.len() == 0 {
        Seq::empty()
    } else {
        escaped(s.drop_last()) + escaped_char(s.last())
    }
}

/// `s`, escaped and wrapped in double quotes.
pub open spec fn quoted(s: Seq<char>) -> Seq<char> {
    seq!['"'] + escaped(s) + seq!['"']
}

/// Returns `text` escaped and wrapped in double quotes.
pub fn quote_text(text: &str) -> (r: String)
    ensures
        r@ == quoted(text@),
{
    let n = text.unicode_len();
    proof {
        reveal_strlit("\"");
    }
    let mut out = String::from_str("\"");
    let mut i: usize = 0;
    while i < n
        invariant
            n == text@.len(),
            i <= n,
            out@ == seq!['"'] + escaped(text@.subrange(0, i as int)),
        decreases n - i,
    {
        let c = text.get_char(i);
        if c == '"' {
            out.append("\\\"");
            proof {
                reveal_strlit("\\\"");
                assert(("\\\"")@ =~= escaped_char(c));
            }
        } else if c == '\\' {
            out.append("\\\\");
            proof {
                reveal_strlit("\\\\");
                assert(("\\\\")@ =~= escaped_char(c));
            }
        } else if c == '\n' {
            out.append("\\n");
            proof {
                reveal_strlit("\\n");
                assert(("\\n")@ =~= escaped_char(c));
            }
        } else if c == '\r' {
            out.append("\\r");
            proof {
                reveal_strlit("\\r");
                assert(("\\r")@ =~= escaped_char(c));
            }
        } else if c == '\t' {
            out.append("\\t");
            proof {
                reveal_strlit("\\t");
                assert(("\\t")@ =~= escaped_char(c));
            }
        } else {
            let piece = text.substring_char(i, i + 1);
            out.append(piece);
            proof {
                assert(piece@ =~= escaped_char(c));
            }
        }
        proof {
            let before = text@.subrange(0, i as int);
            let after = text@.subrange(0, i + 1);
            assert(after.drop_last() =~= before);
            assert(after.last() == c);
            assert(escaped(after) == escaped(after.drop_last()) + escaped_char(after.last()));
            assert(out@ =~= seq!['"'] + escaped(after));
        }
        i = i + 1;
    }
    proof {
        assert(text@.subrange(0, n as int) =~= text@);
        reveal_strlit("\"");
    }
    let close = String::from_str("\"");
    out.append(close.as_str());
    proof {
        assert(out@ =~= quoted(text@));
    }
    out
}

} // verus!
