//! The usage text.

use vstd::prelude::*;

verus! {

/// The usage text: eight lines, each ended by a newline, with a blank line
/// after the title and another before the option list.
pub open spec fn help_text_spec() -> Seq<char> {
    "cliputil: clipboard utility\n\nUsage: cliputil [option]\n\navailable options:\n    -w, --write    write stdin to clipboard.\n    -r, --read     display current clipboard data.\n    -h, --help     show this help.\n"@
}

/// Renders the usage text.
pub fn help_text() -> (r: String)
    ensures
        r@ == help_text_spec(),
{
    "cliputil: clipboard utility\n\nUsage: cliputil [option]\n\navailable options:\n    -w, --write    write stdin to clipboard.\n    -r, --read     display current clipboard data.\n    -h, --help     show this help.\n".to_owned()
}

} // verus!
