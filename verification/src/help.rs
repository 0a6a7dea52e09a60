//! The help panel: its text lines and the column at which a centred line
//! starts.

use vstd::prelude::*;

verus! {

/// The help panel, top to bottom; the empty line separates the key bindings
/// from the editing instructions.
pub fn show() -> (r: Vec<&'static str>)
    ensures
        r@.len() == 12,
        r@[0]@ == "HELP MENU"@,
        r@[1]@ == "----------------------"@,
        r@[2]@ == "h to show this menu"@,
        r@[3]@ == "esc/q to quit"@,
        r@[4]@ == "r to reset"@,
        r@[5]@ == "e to edit board"@,
        r@[6]@ == ""@,
        r@[7]@ == "Editing"@,
        r@[8]@ == "------------"@,
        r@[9]@ == "A single character represents 2 blocks, so:"@,
        r@[10]@ == "Right click to place upper block"@,
        r@[11]@ == "Left click to place lower block"@,
{
    let mut lines: Vec<&'static str> = Vec::new();
    lines.push("HELP MENU");
    lines.push("----------------------");
    lines.push("h to show this menu");
    lines.push("esc/q to quit");
    lines.push("r to reset");
    lines.push("e to edit board");
    lines.push("");
    lines.push("Editing");
    lines.push("------------");
    lines.push("A single character represents 2 blocks, so:");
    lines.push("Right click to place upper block");
    lines.push("Left click to place lower block");
    lines
}

/// Column at which a line of the given length starts so that it sits centred
/// on a terminal of the given width.
pub fn center_col(width: u16, len: u16) -> (r: u16)
    requires
        len <= width,
    ensures
        r == (width - len) / 2,
{
    (width - len) / 2
}

} // verus!
