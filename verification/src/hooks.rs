//! Hook content: what the prepare-commit-msg hook adds to a message.
//!
//! The hook itself reads and writes the message file; the text
//! transformation it applies lives here.

use vstd::prelude::*;

verus! {

/// The commit message with the assistance note appended.
pub fn append_assist_note(msg: String) -> (r: String)
    ensures
        r@ == msg@ + "\n\n[AI-assisted commit message]"@,
{
    let mut r = msg;
    r.append("\n\n[AI-assisted commit message]");
    r
}

} // verus!
