use vstd::prelude::*;

verus! {

/// Everything that a storage operation can report to its caller.
#[derive(Debug, Clone, Copy, PartialEq, Eq, Structural)]
pub enum Error {
    /// The store has no room for another key.
    NoSpace,
    /// A monotonic counter cannot advance: it holds the largest value, or
    /// bytes that do not read as a counter.
    CounterOverflow,
    /// A value's encoding is longer than its field allows, or not of the exact
    /// length that an exact-length field asks for.
    InvalidLength,
    /// A display rotation other than 0, 90, 180 or 270 degrees.
    InvalidRotation,
    /// A safety-check level that is neither strict nor prompt.
    InvalidSafetyCheckLevel,
    /// A stored backup type outside the known codes.
    InvalidBackupType,
    /// A recovery-share or group index outside `0..16`.
    IndexOutOfRange,
}

/// The result of an operation on the store.
pub type StorageResult<T> = Result<T, Error>;

} // verus!
