//! Why a text could not be produced.

use vstd::prelude::*;

verus! {

/// The ways in which formatting is refused. Each is found before any text
/// is produced.
#[derive(Debug, Clone, Copy, PartialEq, Eq)]
pub enum FormatError {
    /// The template is not written in the template grammar.
    Malformed,
    /// A hole refers to a positional argument that was not given.
    UndefinedIndex,
    /// A hole refers to a named argument that was not given.
    UndefinedName,
    /// A hole asks a value for a kind of text that its type does not define.
    Unsupported,
}

} // verus!
