//! The shared- and weak-pointer validators, and the validation interface
//! every archived type implements.

use vstd::prelude::*;

use crate::context::ArchiveContext;
use crate::error::{FailureKind, LayoutError, LedgerError, SharedPointerError, WeakPointerError};
use crate::{in_bounds, layout_fail, rel_target, REL_PTR_ALIGN, REL_PTR_SIZE};

verus! {

/// Discriminant byte of an empty weak pointer.
pub const TAG_NONE: u8 = 0;

/// Discriminant byte of a populated weak pointer.
pub const TAG_SOME: u8 = 1;

/// Byte offset of the embedded shared pointer inside a populated weak
/// pointer: the discriminant byte sits at offset 0, and the shared pointer
/// follows at the offset its own alignment dictates.
pub const WEAK_PAYLOAD_OFFSET: usize = 4;

/// Wire size in bytes of an archived weak pointer: discriminant byte,
/// padding, embedded shared pointer.
pub const WEAK_SIZE: usize = 8;

/// The universal validation interface: every archived type that can stand
/// behind a pointer — including the shared and weak pointers themselves —
/// implements it.
///
/// The contract of `check_bytes` pins the whole observable outcome down as a
/// function of the buffer, the position, and the starting ledger alone: what
/// is accepted (`spec_ok`), the exact error value reported otherwise
/// (`spec_err`) and its category (`spec_fail`), what the ledger holds
/// afterwards (`spec_ledger_after`), and how the instrumentation counter
/// moved (`spec_checks_after`). Validation of one and the same buffer is
/// therefore deterministic, wrapped causes included.
pub trait ArchivedValue: Sized {
    /// The error this type reports when its bytes fail validation.
    type Error;

    /// Wire size in bytes of this type inside an archive.
    spec fn spec_size() -> int;

    /// Required alignment of this type inside an archive.
    spec fn spec_align() -> int;

    /// The opaque type-identity token standing in for this type in ledger
    /// claims; two archived types with different tokens may never alias one
    /// archive address.
    spec fn spec_token() -> u64;

    /// Whether the bytes at `pos` are a structurally valid value of this
    /// type, given what the ledger has already certified.
    spec fn spec_ok(buf: Seq<u8>, pos: int, ledger: Map<usize, u64>) -> bool;

    /// Which category the failure falls in when `spec_ok` does not hold.
    spec fn spec_fail(buf: Seq<u8>, pos: int, ledger: Map<usize, u64>) -> FailureKind;

    /// The ledger contents after checking the value at `pos`.
    spec fn spec_ledger_after(buf: Seq<u8>, pos: int, ledger: Map<usize, u64>) -> Map<usize, u64>;

    /// The category of a concrete error value of this type.
    spec fn failure_kind(e: &Self::Error) -> FailureKind;

    /// The exact error value reported when `spec_ok` does not hold: each
    /// variant wraps the failing stage's own cause.
    spec fn spec_err(buf: Seq<u8>, pos: int, ledger: Map<usize, u64>) -> Self::Error;

    /// The instrumentation counter after checking the value at `pos`, given
    /// its value before: how many deep payload validations have begun.
    spec fn spec_checks_after(buf: Seq<u8>, pos: int, ledger: Map<usize, u64>, checks: int) -> int;

    /// Executable mirror of `spec_size`.
    fn wire_size() -> (r: usize)
        ensures
            r as int == Self::spec_size(),
    ;

    /// Executable mirror of `spec_align`.
    fn wire_align() -> (r: usize)
        ensures
            r as int == Self::spec_align(),
            r >= 1,
    ;

    /// Executable mirror of `spec_token`.
    fn type_token() -> (r: u64)
        ensures
            r == Self::spec_token(),
    ;

    /// Certify the value whose bytes begin at `pos`. The buffer is never
    /// read outside its bounds and never changed; the ledger and the
    /// instrumentation counter move exactly as `spec_ledger_after` and
    /// `spec_checks_after` say. The result is `Ok` exactly on the inputs
    /// `spec_ok` admits; any error is exactly `spec_err`, whose category is
    /// `spec_fail`.
    fn check_bytes(ctx: &mut ArchiveContext, pos: usize) -> (r: Result<(), Self::Error>)
        requires
            old(ctx).wf(),
            pos + Self::spec_size() <= old(ctx).buf@.len(),
        ensures
            final(ctx).wf(),
            final(ctx).buf@ == old(ctx).buf@,
            final(ctx).payload_checks == Self::spec_checks_after(
                old(ctx).buf@,
                pos as int,
                old(ctx).ledger@,
                old(ctx).payload_checks as int,
            ),
            r is Ok <==> Self::spec_ok(old(ctx).buf@, pos as int, old(ctx).ledger@),
            final(ctx).ledger@ == Self::spec_ledger_after(old(ctx).buf@, pos as int, old(ctx).ledger@),
            r matches Err(e) ==> e == Self::spec_err(old(ctx).buf@, pos as int, old(ctx).ledger@),
            r matches Err(e) ==> Self::failure_kind(&e) == Self::spec_fail(
                old(ctx).buf@,
                pos as int,
                old(ctx).ledger@,
            ),
    ;
}

/// One more deep payload validation begun, saturating at the counter's cap.
pub open spec fn next_check_count(checks: int) -> int {
    if checks < u64::MAX {
        checks + 1
    } else {
        checks
    }
}

/// An archived shared pointer to a value of type `T`: on the wire, a 32-bit
/// relative offset to the shared target. Many shared pointers may resolve to
/// the identical address; the target's payload is deep-validated only on the
/// first claim of that address.
pub struct ArchivedRc<T> {
    _pointee: core::marker::PhantomData<T>,
}

/// The ledger key component a target address resolved at `pos` is claimed
/// under, as a machine address.
pub open spec fn target_addr(buf: Seq<u8>, pos: int) -> usize {
    rel_target(buf, pos) as usize
}

impl<T: ArchivedValue> ArchivedValue for ArchivedRc<T> {
    type Error = SharedPointerError<LayoutError, T::Error, LedgerError>;

    open spec fn spec_size() -> int {
        REL_PTR_SIZE as int
    }

    open spec fn spec_align() -> int {
        REL_PTR_ALIGN as int
    }

    /// Distinct from the pointee's own token and from every weak pointer's.
    open spec fn spec_token() -> u64 {
        ((2 * T::spec_token() + 1) % 0x1_0000_0000_0000_0000) as u64
    }

    open spec fn spec_ok(buf: Seq<u8>, pos: int, ledger: Map<usize, u64>) -> bool {
        &&& in_bounds(buf, pos, T::spec_size(), T::spec_align())
        &&& if ledger.contains_key(target_addr(buf, pos)) {
            ledger[target_addr(buf, pos)] == Self::spec_token()
        } else {
            T::spec_ok(
                buf,
                rel_target(buf, pos),
                ledger.insert(target_addr(buf, pos), Self::spec_token()),
            )
        }
    }

    open spec fn spec_fail(buf: Seq<u8>, pos: int, ledger: Map<usize, u64>) -> FailureKind {
        if !in_bounds(buf, pos, T::spec_size(), T::spec_align()) {
            FailureKind::Layout
        } else if ledger.contains_key(target_addr(buf, pos)) {
            FailureKind::Ledger
        } else {
            FailureKind::Payload
        }
    }

    open spec fn spec_ledger_after(buf: Seq<u8>, pos: int, ledger: Map<usize, u64>) -> Map<
        usize,
        u64,
    > {
        if !in_bounds(buf, pos, T::spec_size(), T::spec_align()) {
            ledger
        } else if ledger.contains_key(target_addr(buf, pos)) {
            ledger
        } else {
            T::spec_ledger_after(
                buf,
                rel_target(buf, pos),
                ledger.insert(target_addr(buf, pos), Self::spec_token()),
            )
        }
    }

    open spec fn failure_kind(e: &Self::Error) -> FailureKind {
        match e {
            SharedPointerError::PointerCheckBytesError(_) => FailureKind::Layout,
            SharedPointerError::ValueCheckBytesError(_) => FailureKind::Payload,
            SharedPointerError::ContextError(_) => FailureKind::Ledger,
        }
    }

    /// Each variant carries the failing stage's own cause: the resolver's
    /// layout verdict, the ledger's conflict record, or the payload
    /// validator's own error.
    open spec fn spec_err(buf: Seq<u8>, pos: int, ledger: Map<usize, u64>) -> Self::Error {
        if !in_bounds(buf, pos, T::spec_size(), T::spec_align()) {
            SharedPointerError::PointerCheckBytesError(
                layout_fail(buf, pos, T::spec_size(), T::spec_align()),
            )
        } else if ledger.contains_key(target_addr(buf, pos)) {
            SharedPointerError::ContextError(LedgerError::TypeConflict {
                address: target_addr(buf, pos),
                existing: ledger[target_addr(buf, pos)],
                claimed: Self::spec_token(),
            })
        } else {
            SharedPointerError::ValueCheckBytesError(
                T::spec_err(
                    buf,
                    rel_target(buf, pos),
                    ledger.insert(target_addr(buf, pos), Self::spec_token()),
                ),
            )
        }
    }

    open spec fn spec_checks_after(
        buf: Seq<u8>,
        pos: int,
        ledger: Map<usize, u64>,
        checks: int,
    ) -> int {
        if !in_bounds(buf, pos, T::spec_size(), T::spec_align()) {
            checks
        } else if ledger.contains_key(target_addr(buf, pos)) {
            checks
        } else {
            T::spec_checks_after(
                buf,
                rel_target(buf, pos),
                ledger.insert(target_addr(buf, pos), Self::spec_token()),
                next_check_count(checks),
            )
        }
    }

    fn wire_size() -> (r: usize) {
        REL_PTR_SIZE
    }

    fn wire_align() -> (r: usize) {
        REL_PTR_ALIGN
    }

    fn type_token() -> (r: u64) {
        let t = T::type_token();
        if t < 0x8000_0000_0000_0000 {
            2 * t + 1
        } else {
            2 * (t - 0x8000_0000_0000_0000) + 1
        }
    }

    /// Resolve the relative pointer, claim the target, and deep-validate the
    /// payload exactly when this (address, type identity) pair is new.
    fn check_bytes(ctx: &mut ArchiveContext, pos: usize) -> (r: Result<(), Self::Error>) {
        let size = T::wire_size();
        let align = T::wire_align();
        let target = match ctx.check_rel_ptr(pos, size, align) {
            Ok(t) => t,
            Err(e) => {
                return Err(SharedPointerError::PointerCheckBytesError(e));
            },
        };
        let token = Self::type_token();
        match ctx.claim_shared_ptr(target, token) {
            Err(e) => Err(SharedPointerError::ContextError(e)),
            Ok(None) => Ok(()),
            Ok(Some(addr)) => {
                ctx.note_payload_check();
                match T::check_bytes(ctx, addr) {
                    Ok(()) => Ok(()),
                    Err(e) => Err(SharedPointerError::ValueCheckBytesError(e)),
                }
            },
        }
    }
}

/// An archived weak pointer to a value of type `T`: a discriminant byte at
/// offset 0 — empty or populated — followed, only when populated, by an
/// embedded shared pointer at the offset its alignment dictates.
pub struct ArchivedRcWeak<T> {
    _pointee: core::marker::PhantomData<T>,
}

impl<T: ArchivedValue> ArchivedValue for ArchivedRcWeak<T> {
    type Error = WeakPointerError<LayoutError, T::Error, LedgerError>;

    open spec fn spec_size() -> int {
        WEAK_SIZE as int
    }

    open spec fn spec_align() -> int {
        REL_PTR_ALIGN as int
    }

    /// Distinct from the pointee's own token and from every shared pointer's.
    open spec fn spec_token() -> u64 {
        ((2 * T::spec_token()) % 0x1_0000_0000_0000_0000) as u64
    }

    open spec fn spec_ok(buf: Seq<u8>, pos: int, ledger: Map<usize, u64>) -> bool {
        ||| buf[pos] == TAG_NONE
        ||| (buf[pos] == TAG_SOME && <ArchivedRc<T> as ArchivedValue>::spec_ok(
            buf,
            pos + WEAK_PAYLOAD_OFFSET,
            ledger,
        ))
    }

    open spec fn spec_fail(buf: Seq<u8>, pos: int, ledger: Map<usize, u64>) -> FailureKind {
        if buf[pos] == TAG_SOME {
            <ArchivedRc<T> as ArchivedValue>::spec_fail(buf, pos + WEAK_PAYLOAD_OFFSET, ledger)
        } else {
            FailureKind::Tag(buf[pos])
        }
    }

    open spec fn spec_ledger_after(buf: Seq<u8>, pos: int, ledger: Map<usize, u64>) -> Map<
        usize,
        u64,
    > {
        if buf[pos] == TAG_SOME {
            <ArchivedRc<T> as ArchivedValue>::spec_ledger_after(
                buf,
                pos + WEAK_PAYLOAD_OFFSET,
                ledger,
            )
        } else {
            ledger
        }
    }

    open spec fn failure_kind(e: &Self::Error) -> FailureKind {
        match e {
            WeakPointerError::InvalidTag(b) => FailureKind::Tag(*b),
            WeakPointerError::CheckBytes(se) => <ArchivedRc<T> as ArchivedValue>::failure_kind(se),
        }
    }

    /// A corrupt discriminant carries the offending byte; a populated weak
    /// pointer wraps the embedded shared pointer's own error, cause and all.
    open spec fn spec_err(buf: Seq<u8>, pos: int, ledger: Map<usize, u64>) -> Self::Error {
        if buf[pos] == TAG_SOME {
            WeakPointerError::CheckBytes(
                <ArchivedRc<T> as ArchivedValue>::spec_err(buf, pos + WEAK_PAYLOAD_OFFSET, ledger),
            )
        } else {
            WeakPointerError::InvalidTag(buf[pos])
        }
    }

    open spec fn spec_checks_after(
        buf: Seq<u8>,
        pos: int,
        ledger: Map<usize, u64>,
        checks: int,
    ) -> int {
        if buf[pos] == TAG_SOME {
            <ArchivedRc<T> as ArchivedValue>::spec_checks_after(
                buf,
                pos + WEAK_PAYLOAD_OFFSET,
                ledger,
                checks,
            )
        } else {
            checks
        }
    }

    fn wire_size() -> (r: usize) {
        WEAK_SIZE
    }

    fn wire_align() -> (r: usize) {
        REL_PTR_ALIGN
    }

    fn type_token() -> (r: u64) {
        let t = T::type_token();
        if t < 0x8000_0000_0000_0000 {
            2 * t
        } else {
            2 * (t - 0x8000_0000_0000_0000)
        }
    }

    /// Read the discriminant byte; accept an empty weak pointer outright,
    /// delegate a populated one to the shared-pointer validator, and reject
    /// every other byte value as fatal tag corruption. The whole weak
    /// pointer's bytes are in bounds by precondition, so the byte read
    /// cannot fail.
    fn check_bytes(ctx: &mut ArchiveContext, pos: usize) -> (r: Result<(), Self::Error>) {
        // The weak pointer lies inside the buffer, whose length is a machine
        // word, so the embedded pointer's position cannot overflow.
        let n = ctx.buf.len();
        let tag = ctx.read_byte(pos);
        if tag == TAG_NONE {
            Ok(())
        } else if tag == TAG_SOME {
            match <ArchivedRc<T> as ArchivedValue>::check_bytes(ctx, pos + WEAK_PAYLOAD_OFFSET) {
                Ok(()) => Ok(()),
                Err(e) => Err(WeakPointerError::CheckBytes(e)),
            }
        } else {
            Err(WeakPointerError::InvalidTag(tag))
        }
    }
}

} // verus!
