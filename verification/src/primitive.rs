//! Example archived payload types: the leaves that shared and weak pointers
//! in an archive ultimately point at.

use vstd::prelude::*;

use crate::context::ArchiveContext;
use crate::error::FailureKind;
use crate::validate::ArchivedValue;

verus! {

/// An archived 32-bit unsigned integer: any four in-bounds bytes are valid.
pub struct ArchivedU32;

impl ArchivedValue for ArchivedU32 {
    type Error = ();

    open spec fn spec_size() -> int {
        4
    }

    open spec fn spec_align() -> int {
        4
    }

    open spec fn spec_token() -> u64 {
        5
    }

    open spec fn spec_ok(buf: Seq<u8>, pos: int, ledger: Map<usize, u64>) -> bool {
        true
    }

    open spec fn spec_fail(buf: Seq<u8>, pos: int, ledger: Map<usize, u64>) -> FailureKind {
        FailureKind::Payload
    }

    open spec fn spec_ledger_after(buf: Seq<u8>, pos: int, ledger: Map<usize, u64>) -> Map<
        usize,
        u64,
    > {
        ledger
    }

    open spec fn failure_kind(e: &()) -> FailureKind {
        FailureKind::Payload
    }

    /// Never reported: every four in-bounds bytes are a valid value.
    open spec fn spec_err(buf: Seq<u8>, pos: int, ledger: Map<usize, u64>) -> () {
        ()
    }

    /// A leaf payload never begins a deep validation of its own.
    open spec fn spec_checks_after(
        buf: Seq<u8>,
        pos: int,
        ledger: Map<usize, u64>,
        checks: int,
    ) -> int {
        checks
    }

    fn wire_size() -> (r: usize) {
        4
    }

    fn wire_align() -> (r: usize) {
        4
    }

    fn type_token() -> (r: u64) {
        5
    }

    fn check_bytes(ctx: &mut ArchiveContext, pos: usize) -> (r: Result<(), ()>) {
        Ok(())
    }
}

/// The error an archived boolean reports: a byte that encodes neither
/// `false` nor `true`.
#[derive(Debug, PartialEq, Eq, Clone, Copy)]
pub struct InvalidBoolByte {
    /// The offending byte.
    pub byte: u8,
}

/// An archived boolean: a single byte that must be exactly 0 or 1.
pub struct ArchivedBool;

impl ArchivedValue for ArchivedBool {
    type Error = InvalidBoolByte;

    open spec fn spec_size() -> int {
        1
    }

    open spec fn spec_align() -> int {
        1
    }

    open spec fn spec_token() -> u64 {
        7
    }

    open spec fn spec_ok(buf: Seq<u8>, pos: int, ledger: Map<usize, u64>) -> bool {
        buf[pos] == 0 || buf[pos] == 1
    }

    open spec fn spec_fail(buf: Seq<u8>, pos: int, ledger: Map<usize, u64>) -> FailureKind {
        FailureKind::Payload
    }

    open spec fn spec_ledger_after(buf: Seq<u8>, pos: int, ledger: Map<usize, u64>) -> Map<
        usize,
        u64,
    > {
        ledger
    }

    open spec fn failure_kind(e: &InvalidBoolByte) -> FailureKind {
        FailureKind::Payload
    }

    /// The error carries exactly the byte that encodes neither variant.
    open spec fn spec_err(buf: Seq<u8>, pos: int, ledger: Map<usize, u64>) -> InvalidBoolByte {
        InvalidBoolByte { byte: buf[pos] }
    }

    /// A leaf payload never begins a deep validation of its own.
    open spec fn spec_checks_after(
        buf: Seq<u8>,
        pos: int,
        ledger: Map<usize, u64>,
        checks: int,
    ) -> int {
        checks
    }

    fn wire_size() -> (r: usize) {
        1
    }

    fn wire_align() -> (r: usize) {
        1
    }

    fn type_token() -> (r: u64) {
        7
    }

    fn check_bytes(ctx: &mut ArchiveContext, pos: usize) -> (r: Result<(), InvalidBoolByte>) {
        let b = ctx.read_byte(pos);
        if b == 0 || b == 1 {
            Ok(())
        } else {
            Err(InvalidBoolByte { byte: b })
        }
    }
}

} // verus!
