//! The compute part of the identity-CLI calls: what the captured standard
//! output of the external identity tool is reduced to before it is used —
//! the same characters with surrounding whitespace removed.

use vstd::prelude::*;

verus! {

/// The characters with the Unicode `White_Space` property: exactly those
/// that `char::is_whitespace` accepts.
pub open spec fn is_space(c: char) -> bool {
    ||| c == '\u{0009}'
    ||| c == '\u{000A}'
    ||| c == '\u{000B}'
    ||| c == '\u{000C}'
    ||| c == '\u{000D}'
    ||| c == ' '
    ||| c == '\u{0085}'
    ||| c == '\u{00A0}'
    ||| c == '\u{1680}'
    ||| c == '\u{2000}'
    ||| c == '\u{2001}'
    ||| c == '\u{2002}'
    ||| c == '\u{2003}'
    ||| c == '\u{2004}'
    ||| c == '\u{2005}'
    ||| c == '\u{2006}'
    ||| c == '\u{2007}'
    ||| c == '\u{2008}'
    ||| c == '\u{2009}'
    ||| c == '\u{200A}'
    ||| c == '\u{2028}'
    ||| c == '\u{2029}'
    ||| c == '\u{202F}'
    ||| c == '\u{205F}'
    ||| c == '\u{3000}'
}

/// The characters that remain once every leading whitespace character is
/// dropped.
pub open spec fn trim_front(s: Seq<char>) -> Seq<char>
    decreases s.len(),
{
    if s.len() > 0 && is_space(s[0]) {
        trim_front(s.subrange(1, s.len() as int))
    } else {
        s
    }
}

/// The characters that remain once every trailing whitespace character is
/// dropped.
pub open spec fn trim_back(s: Seq<char>) -> Seq<char>
    decreases s.len(),
{
    if s.len() > 0 && is_space(s[s.len() - 1]) {
        trim_back(s.subrange(0, s.len() - 1))
    } else {
        s
    }
}

/// The characters that remain once leading and trailing whitespace is
/// dropped.
pub open spec fn trimmed(s: Seq<char>) -> Seq<char> {
    trim_back(trim_front(s))
}

/// Relies on `str::trim`: it removes exactly the leading and trailing
/// characters with the Unicode `White_Space` property, which `is_space`
/// lists in full, and keeps the rest.
#[verifier::external_body]
fn trim_str(s: &str) -> (r: &str)
    ensures
        r@ == trimmed(s@),
{
    s.trim()
}

/// Reduces the captured standard output of an identity-CLI invocation to
/// the string the tool answered with: the same characters, without leading
/// and trailing whitespace, owned.
pub fn command_output(raw: &str) -> (out: String)
    ensures
        out@ == trimmed(raw@),
{
    trim_str(raw).to_owned()
}

} // verus!
