//! The shared-pointer ledger: records, for one validation pass, which archive
//! addresses have been certified and under which type identity. A repeated
//! claim of the identical (address, type) pair is accepted without payload
//! re-validation; a claim of a recorded address under another type identity
//! is fatal (type confusion).

use vstd::prelude::*;

use crate::error::LedgerError;

verus! {

/// The mathematical content of a list of ledger entries: a map from claimed
/// address to the type identity it was claimed under (later entries override
/// earlier ones; a well-formed ledger never holds two entries for one
/// address, so the order is immaterial).
pub open spec fn map_of(entries: Seq<(usize, u64)>) -> Map<usize, u64>
    decreases entries.len(),
{
    if entries.len() == 0 {
        Map::empty()
    } else {
        map_of(entries.drop_last()).insert(entries.last().0, entries.last().1)
    }
}

/// An address is in the map exactly when some entry carries it.
proof fn lemma_map_of_contains(entries: Seq<(usize, u64)>, k: usize)
    ensures
        map_of(entries).contains_key(k) <==> exists|i: int|
            0 <= i < entries.len() && #[trigger] entries[i].0 == k,
    decreases entries.len(),
{
    if entries.len() > 0 {
        lemma_map_of_contains(entries.drop_last(), k);
        if entries.last().0 == k {
            assert(entries[entries.len() - 1].0 == k);
        } else if map_of(entries).contains_key(k) {
            let i = choose|i: int|
                0 <= i < entries.drop_last().len() && #[trigger] entries.drop_last()[i].0 == k;
            assert(entries[i].0 == k);
        } else {
            assert(forall|i: int|
                0 <= i < entries.drop_last().len() ==> entries.drop_last()[i].0 == #[trigger] entries[i].0);
        }
    }
}

/// In a duplicate-free entry list, the map sends each entry's address to that
/// entry's type identity.
proof fn lemma_map_of_at(entries: Seq<(usize, u64)>, i: int)
    requires
        forall|p: int, q: int| 0 <= p < q < entries.len() ==> (#[trigger] entries[p]).0 != (#[trigger] entries[q]).0,
        0 <= i < entries.len(),
    ensures
        map_of(entries).contains_key(entries[i].0),
        map_of(entries)[entries[i].0] == entries[i].1,
    decreases entries.len(),
{
    if i == entries.len() - 1 {
    } else {
        lemma_map_of_at(entries.drop_last(), i);
        assert(entries.drop_last()[i] == entries[i]);
        assert(entries.last().0 != entries[i].0);
    }
}

/// Records which (address, type identity) pairs have been certified.
pub struct SharedLedger {
    entries: Vec<(usize, u64)>,
}

impl View for SharedLedger {
    type V = Map<usize, u64>;

    closed spec fn view(&self) -> Map<usize, u64> {
        map_of(self.entries@)
    }
}

impl SharedLedger {
    /// Internally, no address is recorded twice.
    pub closed spec fn wf(&self) -> bool {
        forall|p: int, q: int|
            0 <= p < q < self.entries@.len() ==> (#[trigger] self.entries@[p]).0 != (
            #[trigger] self.entries@[q]).0
    }

    /// A fresh ledger: nothing certified yet.
    pub fn new() -> (r: SharedLedger)
        ensures
            r@ == Map::<usize, u64>::empty(),
            r.wf(),
    {
        SharedLedger { entries: Vec::new() }
    }

    /// Claim `address` under type identity `token`.
    ///
    /// The first claim of an address records the pair and returns the address
    /// back as the payload handle: the caller must now deep-validate the
    /// payload there. A repeated claim of the identical pair returns nothing:
    /// the payload is already trusted. A claim of a recorded address under a
    /// different identity is type confusion and fails; the ledger is left
    /// unchanged.
    pub fn claim(&mut self, address: usize, token: u64) -> (r: Result<Option<usize>, LedgerError>)
        requires
            old(self).wf(),
        ensures
            final(self).wf(),
            old(self)@.contains_key(address) && old(self)@[address] == token ==> r == Ok::<
                Option<usize>,
                LedgerError,
            >(None) && final(self)@ == old(self)@,
            old(self)@.contains_key(address) && old(self)@[address] != token ==> r == Err::<
                Option<usize>,
                LedgerError,
            >(LedgerError::TypeConflict {
                address,
                existing: old(self)@[address],
                claimed: token,
            }) && final(self)@ == old(self)@,
            !old(self)@.contains_key(address) ==> r == Ok::<Option<usize>, LedgerError>(
                Some(address),
            ) && final(self)@ == old(self)@.insert(address, token),
    {
        proof {
            lemma_map_of_contains(self.entries@, address);
        }
        let n = self.entries.len();
        let mut i: usize = 0;
        while i < n
            invariant
                n == self.entries@.len(),
                i <= n,
                *self == *old(self),
                old(self).wf(),
                forall|j: int| 0 <= j < i ==> (#[trigger] self.entries@[j]).0 != address,
            decreases n - i,
        {
            let (a, t) = self.entries[i];
            if a == address {
                proof {
                    lemma_map_of_at(self.entries@, i as int);
                }
                if t == token {
                    return Ok(None);
                } else {
                    return Err(LedgerError::TypeConflict {
                        address,
                        existing: t,
                        claimed: token,
                    });
                }
            }
            i += 1;
        }
        proof {
            assert(!map_of(self.entries@).contains_key(address));
        }
        let ghost pre = self.entries@;
        self.entries.push((address, token));
        proof {
            assert(self.entries@.drop_last() =~= pre);
            assert(self@ == old(self)@.insert(address, token));
            assert forall|p: int, q: int| 0 <= p < q < self.entries@.len() implies (
            #[trigger] self.entries@[p]).0 != (#[trigger] self.entries@[q]).0 by {
                if q == self.entries@.len() - 1 {
                    assert(self.entries@[p] == pre[p]);
                }
            }
        }
        Ok(Some(address))
    }
}

} // verus!
