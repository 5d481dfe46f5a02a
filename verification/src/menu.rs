//! Menus at the terminal: a typed line picks one of three entries.

use crate::text::{same_text, trim, trimmed};
use vstd::prelude::*;

verus! {

/// Which entry of a menu a typed line picks: 1, 2 or 3, or 0 for anything else.
pub open spec fn menu_choice(line: Seq<char>) -> int {
    if trimmed(line) == "1"@ {
        1
    } else if trimmed(line) == "2"@ {
        2
    } else if trimmed(line) == "3"@ {
        3
    } else {
        0
    }
}

/// Reads a typed line as the choice of a menu entry: 1, 2 or 3, or 0 for anything else.
pub fn choice(line: &str) -> (picked: u8)
    ensures
        picked as int == menu_choice(line@),
{
    let inner = trim(line);
    if same_text(inner, "1") {
        1
    } else if same_text(inner, "2") {
        2
    } else if same_text(inner, "3") {
        3
    } else {
        0
    }
}

} // verus!
