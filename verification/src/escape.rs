//! Escaping of LaTeX special characters in user-entered text.
//!
//! Each character that LaTeX treats specially is rewritten to a command
//! that renders it literally; every other character is kept as it is.

use vstd::prelude::*;
use vstd::string::*;

verus! {

/// What one character of the input becomes in the escaped output.
pub open spec fn escape_char(c: char) -> Seq<char> {
    if c == '\\' {
        "\\textbackslash\\{\\}"@
    } else if c == '{' {
        "\\{"@
    } else if c == '}' {
        "\\}"@
    } else if c == '$' {
        "\\$"@
    } else if c == '&' {
        "\\&"@
    } else if c == '%' {
        "\\%"@
    } else if c == '#' {
        "\\#"@
    } else if c == '^' {
        "\\textasciicircum{}"@
    } else if c == '_' {
        "\\_"@
    } else if c == '~' {
        "\\textasciitilde{}"@
    } else {
        seq![c]
    }
}

/// The escaped form of a whole string: each character replaced by
/// `escape_char`, in order.
pub open spec fn escape_seq(s: Seq<char>) -> Seq<char>
    decreases s.len(),
{
    if s.len() == 0 {
        Seq::empty()
    } else {
        escape_seq(s.drop_last()) + escape_char(s.last())
    }
}

/// Escapes every LaTeX special character in `s`.
pub fn escape_latex(s: &str) -> (r: String)
    ensures
        r@ == escape_seq(s@),
{
    let n: usize = s.unicode_len();
    let mut out = String::new();
    let mut i: usize = 0;
    while i < n
        invariant
            i <= n,
            n == s@.len(),
            out@ == escape_seq(s@.subrange(0, i as int)),
        decreases n - i,
    {
        let c = s.get_char(i);
        if c == '\\' {
            out.append("\\textbackslash\\{\\}");
        } else if c == '{' {
            out.append("\\{");
        } else if c == '}' {
            out.append("\\}");
        } else if c == '$' {
            out.append("\\$");
        } else if c == '&' {
            out.append("\\&");
        } else if c == '%' {
            out.append("\\%");
        } else if c == '#' {
            out.append("\\#");
        } else if c == '^' {
            out.append("\\textasciicircum{}");
        } else if c == '_' {
            out.append("\\_");
        } else if c == '~' {
            out.append("\\textasciitilde{}");
        } else {
            let piece = s.substring_char(i, i + 1);
            out.append(piece);
            proof {
                assert(piece@ =~= seq![s@[i as int]]);
            }
        }
        proof {
            assert(s@.subrange(0, i + 1 as int).drop_last() =~= s@.subrange(0, i as int));
            assert(s@.subrange(0, i + 1 as int).last() == s@[i as int]);
        }
        i = i + 1;
    }
    proof {
        assert(s@.subrange(0, n as int) =~= s@);
    }
    out
}

} // verus!
