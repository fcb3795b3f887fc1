//! Validation of archived shared and weak pointers.
//!
//! Given an untrusted byte buffer that claims to encode a serialized object
//! graph, this library certifies — without deserializing or copying — that
//! every shared-ownership pointer and weak pointer inside it is structurally
//! sound: in-bounds, correctly tagged, and type-consistent. A ledger records
//! which (address, type identity) pairs have already been certified, so each
//! unique shared target is deep-validated at most once per pass and cyclic
//! shared graphs terminate.

use vstd::prelude::*;

pub mod context;
pub mod error;
pub mod laws;
pub mod ledger;
pub mod primitive;
pub mod validate;

verus! {

/// Wire size in bytes of an archived shared pointer: one 32-bit relative
/// offset.
pub const REL_PTR_SIZE: usize = 4;

/// Required alignment of an archived shared pointer.
pub const REL_PTR_ALIGN: usize = 4;

/// The unsigned 32-bit word stored little-endian at `pos` in `buf`.
pub open spec fn le_word(buf: Seq<u8>, pos: int) -> int {
    buf[pos] + 0x100 * buf[pos + 1] + 0x1_0000 * buf[pos + 2] + 0x100_0000 * buf[pos + 3]
}

/// The signed value of a 32-bit word, interpreted as two's complement.
pub open spec fn signed32(w: int) -> int {
    if w < 0x8000_0000 {
        w
    } else {
        w - 0x1_0000_0000
    }
}

/// The address the relative pointer at `pos` resolves to: its own position
/// plus its stored signed offset.
pub open spec fn rel_target(buf: Seq<u8>, pos: int) -> int {
    pos + signed32(le_word(buf, pos))
}

/// Whether the relative pointer at `pos` resolves to an address where a value
/// of `size` bytes and alignment `align` lies entirely inside the buffer.
pub open spec fn in_bounds(buf: Seq<u8>, pos: int, size: int, align: int) -> bool {
    &&& 0 <= rel_target(buf, pos)
    &&& rel_target(buf, pos) + size <= buf.len()
    &&& rel_target(buf, pos) % align == 0
}

/// Which layout failure the resolver reports when the pointer at `pos` does
/// not resolve in bounds: underflow before overrun before misalignment.
pub open spec fn layout_fail(buf: Seq<u8>, pos: int, size: int, align: int) -> crate::error::LayoutError {
    if rel_target(buf, pos) < 0 {
        crate::error::LayoutError::Underflow
    } else if rel_target(buf, pos) + size > buf.len() {
        crate::error::LayoutError::Overrun
    } else {
        crate::error::LayoutError::Unaligned
    }
}

} // verus!
