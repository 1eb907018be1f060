//! Copying against moving, side by side on one text.

use vstd::prelude::*;

verus! {

/// What each of the three bindings held when it was looked at.
#[derive(Debug, Clone, PartialEq, Eq)]
pub struct CopyAndMove {
    /// A reading of the first binding, taken while it still owned the text.
    pub original: String,
    /// The clone taken from the first binding.
    pub copy: String,
    /// The binding that the first one was moved into afterwards.
    pub moved: String,
}

/// Builds the text `hallo!`, clones it and reads both, then moves the
/// original on to a new binding and reads that: cloning left the source
/// usable, moving made the new binding its only owner.
pub fn ownership_example() -> (seen: CopyAndMove)
    ensures
        seen.original@ == "hallo!"@,
        seen.copy@ == "hallo!"@,
        seen.moved@ == "hallo!"@,
{
    let first = "hallo!".to_owned();

    let copy = first.clone();
    let original = first.clone();

    let second = first;
    CopyAndMove { original, copy, moved: second }
}

/// Runs [`ownership_example`].
pub fn run() -> (seen: CopyAndMove)
    ensures
        seen.original@ == "hallo!"@,
        seen.copy@ == "hallo!"@,
        seen.moved@ == "hallo!"@,
{
    ownership_example()
}

} // verus!
