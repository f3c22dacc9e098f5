//! The display width of characters.

use unicode_width::UnicodeWidthChar;
use vstd::prelude::*;

verus! {

/// The number of columns that a character takes up on a terminal, or `None` for a control
/// character.
pub uninterp spec fn display_width(c: char) -> Option<u8>;

/// The display width of a character, as `unicode_width::UnicodeWidthChar::width` gives it for a
/// `char`.
///
/// Not proved: that the result is a function of the character alone, that a printable ASCII
/// character is one column wide, and that no character is more than three columns wide.
#[verifier::external_body]
pub(crate) fn char_width(c: char) -> (r: Option<u8>)
    ensures
        r == display_width(c),
        ' ' <= c <= '~' ==> r == Some(1u8),
        r matches Some(w) ==> w <= 3,
{
    match c.width() {
        Some(w) => Some(w as u8),
        None => None,
    }
}

/// The number of columns by which a character moves what is written after it: its display
/// width, and nothing for a control character.
pub open spec fn advance_of(c: char) -> int {
    if c == ' ' {
        1
    } else {
        match display_width(c) {
            Some(w) => w as int,
            None => 0,
        }
    }
}

/// The number of cells that a character fills when it is written: none for a control character
/// or one without width, two for one that is two or more columns wide, else one.
pub open spec fn cells_of(c: char) -> int {
    if advance_of(c) >= 2 {
        2
    } else if advance_of(c) == 1 {
        1
    } else {
        0
    }
}

/// The display width of a character in columns, zero for a control character.
pub fn advance(c: char) -> (r: u16)
    ensures
        r as int == advance_of(c),
        r <= 3,
        ' ' <= c <= '~' ==> r == 1,
{
    match char_width(c) {
        Some(w) => w as u16,
        None => 0,
    }
}

} // verus!
