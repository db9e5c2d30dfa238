//! Whether the application runs with administrator rights.

use vstd::prelude::*;
use crate::text::{trim_text, trimmed};

verus! {

/// Whether the answer of `id -u` is that of the administrator: the number 0,
/// with or without white space around it.
pub open spec fn is_root_reply(reply: Seq<char>) -> bool {
    trimmed(reply) == "0"@
}

/// Reads the answer of `id -u`. `reply` is what the command printed, `None`
/// where it could not be run or printed no text: that counts as no rights.
pub fn check_admin(reply: Option<&str>) -> (admin: bool)
    ensures
        admin == match reply {
            Some(r) => is_root_reply(r@),
            None => false,
        },
{
    match reply {
        Some(r) => trim_text(r).eq("0"),
        None => false,
    }
}

} // verus!
