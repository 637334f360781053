//! The operations on the pending characters that the debug log records.

use vstd::prelude::*;

verus! {

/// A change to (or a look at) the pending characters, with what the log
/// line shows of it.
#[derive(Debug)]
pub enum PendingOp<'a> {
    /// Characters typed.
    Push(&'a str),
    /// A character removed by Backspace.
    Pop(char),
    /// The pending text dropped, with the reason.
    Clear(&'a str),
    /// Text committed.
    Commit(&'a str),
    /// A state observed, with a tag.
    Observe(&'a str),
}

} // verus!
