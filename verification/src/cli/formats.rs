//! The forms in which tasks can be written out.

use vstd::prelude::*;

verus! {

/// How a list of tasks is written out.
#[derive(Copy, Clone, PartialEq, Eq, PartialOrd, Ord, Debug)]
pub enum Format {
    /// Compact JSON.
    Json,
    /// Indented JSON.
    JsonPretty,
    /// Columns of fixed width.
    PlainText,
}

} // verus!
