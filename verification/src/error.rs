//! The error taxonomy: structured failures that keep their underlying cause,
//! so a caller can tell bad pointer layout from bad payload content, ledger
//! (type-confusion) failures, and corrupt discriminants.

use vstd::prelude::*;

verus! {

/// Why a relative pointer failed to resolve inside the buffer.
#[derive(Debug, PartialEq, Eq, Clone, Copy)]
pub enum LayoutError {
    /// The resolved address lies before the start of the buffer.
    Underflow,
    /// The pointed-to value would extend past the end of the buffer.
    Overrun,
    /// The resolved address is not aligned for the pointed-to type.
    Unaligned,
}

/// Why the shared-pointer ledger refused a claim.
#[derive(Debug, PartialEq, Eq, Clone, Copy)]
pub enum LedgerError {
    /// The address was already certified under a different type identity:
    /// two declared types alias one archive address.
    TypeConflict { address: usize, existing: u64, claimed: u64 },
}

/// Errors that can occur while checking archived shared pointers.
///
/// `T` is the error of the pointer's own layout check, `R` the error of the
/// pointed-to value's check, and `C` the error of the validation context
/// (the ledger). Each variant wraps its underlying cause.
#[derive(Debug, PartialEq, Eq)]
pub enum SharedPointerError<T, R, C> {
    /// An error occurred while checking the bytes of the shared pointer itself
    PointerCheckBytesError(T),
    /// An error occurred while checking the bytes of the shared value
    ValueCheckBytesError(R),
    /// A context error occurred
    ContextError(C),
}

/// Errors that can occur while checking archived weak pointers.
#[derive(Debug, PartialEq, Eq)]
pub enum WeakPointerError<T, R, C> {
    /// The weak pointer had an invalid tag; carries the offending byte
    InvalidTag(u8),
    /// An error occurred while checking the underlying shared pointer
    CheckBytes(SharedPointerError<T, R, C>),
}

/// The category of a validation failure, abstracted from the concrete error
/// value. The exhaustive contracts of the validators are stated over these.
#[derive(Debug, PartialEq, Eq, Clone, Copy)]
pub enum FailureKind {
    /// A relative pointer did not resolve to an in-bounds, aligned address.
    Layout,
    /// The pointed-to value's own bytes failed validation.
    Payload,
    /// The ledger refused the claim: type confusion at an address.
    Ledger,
    /// A discriminant byte matched no defined variant; carries the byte.
    Tag(u8),
}

} // verus!
