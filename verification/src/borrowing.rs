//! Ownership of a text: moving it, cloning it, and borrowing it shared or
//! exclusively.
//!
//! Nothing here prints. Each function hands back what every binding held at
//! the moment it was looked at, so that its contract can say what a caller
//! would have seen.

use vstd::prelude::*;

verus! {

/// A text and the clone taken from it.
#[derive(Debug, Clone, PartialEq, Eq)]
pub struct Cloned {
    pub source: String,
    pub copy: String,
}

/// What two shared references, and the owner they borrow from, each read.
#[derive(Debug, Clone, PartialEq, Eq)]
pub struct SharedReads {
    pub first: String,
    pub second: String,
    pub owner: String,
}

/// Everything that [`run`] looked at, in the order it was looked at.
#[derive(Debug, Clone, PartialEq, Eq)]
pub struct Observations {
    /// The second binding, after the first was moved into it.
    pub moved: String,
    /// A text and its clone, both still usable.
    pub cloned: Cloned,
    /// The readings taken while two shared references were alive.
    pub shared: SharedReads,
    /// What the exclusive reference read right after appending through it.
    pub through_exclusive: String,
    /// What the owner held once the exclusive reference was gone.
    pub owner_after: String,
}

/// Moves a text from one binding to another. The value arrives unchanged;
/// the caller's binding is given up by the call and cannot be used again.
pub fn move_text(first: String) -> (second: String)
    ensures
        second@ == first@,
{
    let second = first;
    second
}

/// Clones a text and returns it together with its clone: both bindings stay
/// valid and hold the same characters.
pub fn clone_text(source: String) -> (both: Cloned)
    ensures
        both.source@ == source@,
        both.copy@ == source@,
{
    let copy = source.clone();
    Cloned { source, copy }
}

/// Clones a text and then appends to each side separately. Neither change
/// shows on the other side: the clone has storage of its own.
pub fn clone_then_diverge(source: String, onto_source: &str, onto_copy: &str) -> (both: Cloned)
    ensures
        both.source@ == source@ + onto_source@,
        both.copy@ == source@ + onto_copy@,
{
    let mut source = source;
    let mut copy = source.clone();
    source.append(onto_source);
    copy.append(onto_copy);
    Cloned { source, copy }
}

/// Takes two shared references to `owner` at the same time and reads through
/// both, and through `owner` while they are alive: all three see the same,
/// unchanged text.
pub fn read_shared(owner: &String) -> (seen: SharedReads)
    ensures
        seen.first@ == owner@,
        seen.second@ == owner@,
        seen.owner@ == owner@,
{
    let r1 = owner;
    let r2 = owner;
    SharedReads { first: r1.clone(), second: r2.clone(), owner: owner.clone() }
}

/// Appends `extra` to `owner` through one exclusive reference and returns
/// what that reference read afterwards. When the reference is gone the owner
/// holds its earlier text followed by `extra`, which is also what was read.
pub fn write_exclusive(owner: &mut String, extra: &str) -> (seen: String)
    ensures
        final(owner)@ == old(owner)@ + extra@,
        seen@ == old(owner)@ + extra@,
{
    let r3 = &mut *owner;
    r3.append(extra);
    r3.clone()
}

/// The four demonstrations in a row, on the text `hello`: a move, a clone,
/// two shared borrows of one owner, and an exclusive borrow of that same
/// owner through which ` world` is appended.
pub fn run() -> (seen: Observations)
    ensures
        seen.moved@ == "hello"@,
        seen.cloned.source@ == "hello"@,
        seen.cloned.copy@ == "hello"@,
        seen.shared.first@ == "hello"@,
        seen.shared.second@ == "hello"@,
        seen.shared.owner@ == "hello"@,
        seen.through_exclusive@ == "hello world"@,
        seen.owner_after@ == "hello world"@,
{
    let s1 = "hello".to_owned();
    let s2 = move_text(s1);

    let s3 = "hello".to_owned();
    let cloned = clone_text(s3);

    let mut s = "hello".to_owned();
    let shared = read_shared(&s);
    let through_exclusive = write_exclusive(&mut s, " world");

    proof {
        reveal_strlit("hello");
        reveal_strlit(" world");
        reveal_strlit("hello world");
        assert("hello"@ + " world"@ =~= "hello world"@);
    }
    Observations { moved: s2, cloned, shared, through_exclusive, owner_after: s }
}

} // verus!
