//! The message log is a vector of lines; contracts speak of the text of each line.

use vstd::prelude::*;

verus! {

/// The text of each line, in order.
pub open spec fn texts(lines: Seq<String>) -> Seq<Seq<char>> {
    lines.map_values(|line: String| line@)
}

} // verus!
