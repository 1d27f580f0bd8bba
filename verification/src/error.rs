use vstd::prelude::*;

verus! {

/// The conditions under which this layer refuses an operation before
/// anything crosses the foreign boundary.
///
/// Every variant names a contract that the caller (or the foreign engine)
/// violated; none of them is raised after a foreign call has been made, so a
/// caller that sees one of these knows the foreign state was left untouched.
#[derive(Clone, Copy, Debug, PartialEq, Eq, Structural)]
pub enum Error {
    /// The foreign allocator returned a null address, so no object exists to
    /// be wrapped.
    NullAllocation,
    /// A particle index was negative or not below the current particle
    /// count.
    IndexOutOfBounds { index: i32, count: i32 },
    /// A force group outside the valid range `0..=31`.
    GroupOutOfRange { group: u8 },
    /// A foreign enumeration value with no local counterpart, which signals
    /// version skew between this layer and the engine.
    UnknownMethodCode { code: u32 },
}

} // verus!
