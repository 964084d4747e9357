use vstd::prelude::*;

verus! {

/// The runtime identity of a host type.
///
/// Every store of host values carries the tag of the type it holds, and every
/// reference remembers the tag of the store that issued it. Two tags are the
/// same type exactly when their numbers are equal.
#[derive(Clone, Copy, Debug, PartialEq, Eq, Structural)]
pub struct TypeTag {
    pub id: u64,
}

/// A recoverable failure of an access through a script reference.
///
/// These are handed back to the script caller, which turns them into an error
/// of the scripting language.
#[derive(Clone, Copy, Debug, PartialEq, Eq, Structural)]
pub enum ReflectionError {
    /// The referent's runtime type is not the type that the call site expects.
    CannotDowncast { expected: TypeTag, found: TypeTag },
    /// No live value stands behind the reference: it was never issued by this
    /// store, or its referent has been destroyed.
    InvalidReference { index: usize },
    /// The referent's validity lock cannot count another holder.
    LockExhausted { index: usize },
    /// A hold was given back that the referent's validity lock does not have.
    NotHeld { index: usize },
}

/// A broken invariant found when an owning wrapper is destroyed.
///
/// Unlike a [`ReflectionError`] this is not to be recovered from: a caller that
/// receives one must stop the operation it is in.
#[derive(Clone, Copy, Debug, PartialEq, Eq, Structural)]
pub enum FatalError {
    /// Something still holds the validity lock of the value that is about to
    /// go out of scope.
    StillReferenced { index: usize, holders: usize },
    /// The wrapper claims to own storage that the store does not hold for it.
    StorageMissing { index: usize },
}

} // verus!
