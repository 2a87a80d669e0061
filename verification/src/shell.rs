//! Quoting for POSIX shell text: the single-quote wrapping used when a
//! value is spliced into a bootstrap script line.

use vstd::prelude::*;
use vstd::string::StrSliceExecFns;
use vstd::string::StringExecFns;

verus! {

/// How one character appears inside the single-quoted form: a single
/// quote is closed, escaped and reopened; everything else is literal.
pub open spec fn escaped_char(c: char) -> Seq<char> {
    if c == '\'' {
        "'\"'\"'"@
    } else {
        seq![c]
    }
}

/// The quoted body: each character's escape, in order.
pub open spec fn escaped_body(s: Seq<char>) -> Seq<char>
    decreases s.len(),
{
    if s.len() == 0 {
        Seq::empty()
    } else {
        escaped_body(s.drop_last()) + escaped_char(s.last())
    }
}

/// The full quoted form: `''` for the empty string, otherwise the body
/// wrapped in single quotes.
pub open spec fn spec_shell_escape(s: Seq<char>) -> Seq<char> {
    if s.len() == 0 {
        "''"@
    } else {
        seq!['\''] + escaped_body(s) + seq!['\'']
    }
}

/// Quotes a value so a POSIX shell reads it back verbatim.
pub fn shell_escape(input: &str) -> (r: String)
    ensures
        r@ == spec_shell_escape(input@),
{
    proof {
        reveal_strlit("'");
    }
    let n = input.unicode_len();
    if n == 0 {
        let r = String::from_str("''");
        return r;
    }
    let mut out = String::from_str("'");
    assert(out@ =~= seq!['\''] + escaped_body(input@.subrange(0, 0)));
    let mut i: usize = 0;
    while i < n
        invariant
            n == input@.len(),
            0 <= i <= n,
            out@ =~= seq!['\''] + escaped_body(input@.subrange(0, i as int)),
        decreases n - i,
    {
        let c = input.get_char(i);
        if c == '\'' {
            out.append("'\"'\"'");
        } else {
            let piece = input.substring_char(i, i + 1);
            out.append(piece);
            assert(piece@ =~= escaped_char(c));
        }
        proof {
            assert(input@.subrange(0, i + 1).drop_last() =~= input@.subrange(0, i as int));
            assert(input@.subrange(0, i + 1).last() == input@[i as int]);
        }
        i += 1;
    }
    out.append("'");
    proof {
        assert(input@.subrange(0, n as int) =~= input@);
    }
    out
}

} // verus!
