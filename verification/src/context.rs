//! The validation context: the untrusted buffer under scrutiny together with
//! the shared-pointer ledger for this pass. It is threaded by exclusive
//! mutable reference through the whole validation call tree, never kept in
//! global state, so passes over independent buffers stay independent.

use vstd::prelude::*;

use crate::error::{LayoutError, LedgerError};
use crate::ledger::SharedLedger;
use crate::{in_bounds, layout_fail, rel_target, REL_PTR_SIZE};

verus! {

/// One validation pass's state: the bytes being certified, the ledger of
/// claimed shared targets, and a saturating count of how many deep payload
/// validations were begun (instrumentation for callers and tests).
pub struct ArchiveContext {
    /// The untrusted archive bytes. Never mutated by validation.
    pub buf: Vec<u8>,
    /// Which (address, type identity) pairs are already certified.
    pub ledger: SharedLedger,
    /// How many times a first claim caused a payload validation, saturating.
    pub payload_checks: u64,
}

impl ArchiveContext {
    /// The context is usable: its ledger is internally consistent.
    pub open spec fn wf(&self) -> bool {
        self.ledger.wf()
    }

    /// A fresh pass over `buf`: empty ledger, zero payload validations.
    pub fn new(buf: Vec<u8>) -> (r: ArchiveContext)
        ensures
            r.buf@ == buf@,
            r.ledger@ == Map::<usize, u64>::empty(),
            r.payload_checks == 0,
            r.wf(),
    {
        ArchiveContext { buf, ledger: SharedLedger::new(), payload_checks: 0 }
    }

    /// Read the single byte at `pos`.
    pub fn read_byte(&self, pos: usize) -> (r: u8)
        requires
            pos < self.buf@.len(),
        ensures
            r == self.buf@[pos as int],
    {
        self.buf[pos]
    }

    /// Resolve the relative pointer stored at `pos` to the address of a value
    /// of `size` bytes with alignment `align`, rejecting any target that does
    /// not lie entirely inside the buffer at a properly aligned address.
    pub fn check_rel_ptr(&self, pos: usize, size: usize, align: usize) -> (r: Result<
        usize,
        LayoutError,
    >)
        requires
            pos + REL_PTR_SIZE <= self.buf@.len(),
            align >= 1,
        ensures
            r is Ok <==> in_bounds(self.buf@, pos as int, size as int, align as int),
            r matches Ok(t) ==> t == rel_target(self.buf@, pos as int),
            r matches Err(e) ==> e == layout_fail(self.buf@, pos as int, size as int, align as int),
    {
        // The pointer lies inside the buffer, whose length is a machine
        // word, so the positions of its offset bytes cannot overflow.
        let n = self.buf.len();
        let b0 = self.buf[pos];
        let b1 = self.buf[pos + 1];
        let b2 = self.buf[pos + 2];
        let b3 = self.buf[pos + 3];
        let w: u32 = b0 as u32 + (b1 as u32) * 0x100 + (b2 as u32) * 0x1_0000 + (b3 as u32)
            * 0x100_0000;
        assert(w == crate::le_word(self.buf@, pos as int));
        let off: i64 = if w >= 0x8000_0000 {
            w as i64 - 0x1_0000_0000i64
        } else {
            w as i64
        };
        assert(off == crate::signed32(crate::le_word(self.buf@, pos as int)));
        let t: i128 = pos as i128 + off as i128;
        assert(t == rel_target(self.buf@, pos as int));
        if t < 0 {
            return Err(LayoutError::Underflow);
        }
        if t > self.buf.len() as i128 - size as i128 {
            return Err(LayoutError::Overrun);
        }
        if t % (align as i128) != 0 {
            return Err(LayoutError::Unaligned);
        }
        Ok(t as usize)
    }

    /// Claim `address` under type identity `token` in this pass's ledger;
    /// the buffer and the instrumentation counter are untouched.
    pub fn claim_shared_ptr(&mut self, address: usize, token: u64) -> (r: Result<
        Option<usize>,
        LedgerError,
    >)
        requires
            old(self).wf(),
        ensures
            final(self).wf(),
            final(self).buf == old(self).buf,
            final(self).payload_checks == old(self).payload_checks,
            old(self).ledger@.contains_key(address) && old(self).ledger@[address] == token ==> r
                == Ok::<Option<usize>, LedgerError>(None) && final(self).ledger@ == old(self).ledger@,
            old(self).ledger@.contains_key(address) && old(self).ledger@[address] != token ==> r
                == Err::<Option<usize>, LedgerError>(LedgerError::TypeConflict {
                address,
                existing: old(self).ledger@[address],
                claimed: token,
            }) && final(self).ledger@ == old(self).ledger@,
            !old(self).ledger@.contains_key(address) ==> r == Ok::<Option<usize>, LedgerError>(
                Some(address),
            ) && final(self).ledger@ == old(self).ledger@.insert(address, token),
    {
        self.ledger.claim(address, token)
    }

    /// Note that a payload validation is about to begin (saturating).
    pub fn note_payload_check(&mut self)
        ensures
            final(self).buf == old(self).buf,
            final(self).ledger == old(self).ledger,
            final(self).payload_checks == if old(self).payload_checks < u64::MAX {
                old(self).payload_checks + 1
            } else {
                old(self).payload_checks as int
            },
    {
        if self.payload_checks < u64::MAX {
            self.payload_checks = self.payload_checks + 1;
        }
    }
}

} // verus!
