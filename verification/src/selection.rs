//! Formatting of a confirmed selection for the terminal.

use vstd::prelude::*;
use vstd::string::StringExecFns;

verus! {

/// The indentation and dash a selected name is printed behind.
pub open spec fn line_prefix() -> Seq<char> {
    "  -  "@
}

/// The line printed for one selected role name.
pub open spec fn line_for(name: Seq<char>) -> Seq<char> {
    line_prefix() + name
}

/// Formats the line printed for one selected role name: the name behind an
/// indented dash, nothing more.
pub fn selection_line(name: &str) -> (line: String)
    ensures
        line@ == line_for(name@),
{
    let mut line = String::from_str("  -  ");
    line.append(name);
    line
}

/// Formats the lines printed for a confirmed selection: one line per
/// selected name, in the selection's order.
pub fn selection_lines(names: &Vec<String>) -> (lines: Vec<String>)
    ensures
        lines@.len() == names@.len(),
        forall|i: int| 0 <= i < names@.len() ==> #[trigger] lines@[i]@ == line_for(names@[i]@),
{
    let mut lines: Vec<String> = Vec::new();
    let mut k: usize = 0;
    while k < names.len()
        invariant
            k <= names@.len(),
            lines@.len() == k,
            forall|i: int| 0 <= i < k ==> #[trigger] lines@[i]@ == line_for(names@[i]@),
        decreases names@.len() - k,
    {
        lines.push(selection_line(names[k].as_str()));
        k = k + 1;
    }
    lines
}

} // verus!
