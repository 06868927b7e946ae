//! Plans terminal multiplexer layouts: a pane count and a layout strategy
//! become an ordered script of multiplexer operations and the ordered list of
//! panes that the operations create.

use vstd::prelude::*;
use vstd::string::*;

pub mod config;
pub mod layout;
pub mod paths;
pub mod percentage;
pub mod text;
pub mod wezterm;
pub mod window;

verus! {

/// A text without the line ending that closes it: a carriage return and a
/// line feed, or a line feed alone. No more than one line ending is taken
/// off.
pub open spec fn without_trailing_newline(text: Seq<char>) -> Seq<char> {
    let n = text.len() as int;
    if n >= 2 && text[n - 2] == '\r' && text[n - 1] == '\n' {
        text.take(n - 2)
    } else if n >= 1 && text[n - 1] == '\n' {
        text.take(n - 1)
    } else {
        text
    }
}

/// Takes the closing line ending off what the multiplexer has printed.
pub fn strip_trailing_newline(input: &str) -> (stripped: &str)
    ensures
        stripped@ == without_trailing_newline(input@),
{
    let n = input.unicode_len();
    if n >= 1 && input.get_char(n - 1) == '\n' {
        if n >= 2 && input.get_char(n - 2) == '\r' {
            input.substring_char(0, n - 2)
        } else {
            input.substring_char(0, n - 1)
        }
    } else {
        input
    }
}

} // verus!
