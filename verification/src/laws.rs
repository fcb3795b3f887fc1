//! The library's stated laws, proved once and for all. Together with the
//! exact contract of `ArchivedValue::check_bytes` — whose result, error
//! value, final ledger and validation count are functions of the buffer,
//! the position and the starting ledger alone — they pin down when
//! certification succeeds, which error with which wrapped cause is reported
//! otherwise, and that each unique shared target is deep-validated at most
//! once per pass.

use vstd::prelude::*;

use crate::error::{FailureKind, LayoutError, LedgerError, SharedPointerError, WeakPointerError};
use crate::validate::{
    next_check_count, target_addr, ArchivedRc, ArchivedRcWeak, ArchivedValue, TAG_NONE, TAG_SOME,
};
use crate::{in_bounds, layout_fail, rel_target};

verus! {

/// A shared pointer that resolves in bounds to a fresh address certifies
/// exactly when its payload does: the first claim records the pair and hands
/// the payload to its own validator.
pub proof fn lemma_first_claim_validates_payload<T: ArchivedValue>(
    buf: Seq<u8>,
    pos: int,
    ledger: Map<usize, u64>,
)
    requires
        in_bounds(buf, pos, T::spec_size(), T::spec_align()),
        !ledger.contains_key(target_addr(buf, pos)),
    ensures
        <ArchivedRc<T> as ArchivedValue>::spec_ok(buf, pos, ledger) == T::spec_ok(
            buf,
            rel_target(buf, pos),
            ledger.insert(target_addr(buf, pos), <ArchivedRc<T> as ArchivedValue>::spec_token()),
        ),
{
}

/// A shared pointer whose relative offset does not resolve to an in-bounds,
/// aligned target is rejected with a pointer-layout failure, and the ledger
/// is left untouched.
pub proof fn lemma_out_of_bounds_is_layout_failure<T: ArchivedValue>(
    buf: Seq<u8>,
    pos: int,
    ledger: Map<usize, u64>,
)
    requires
        !in_bounds(buf, pos, T::spec_size(), T::spec_align()),
    ensures
        !<ArchivedRc<T> as ArchivedValue>::spec_ok(buf, pos, ledger),
        <ArchivedRc<T> as ArchivedValue>::spec_fail(buf, pos, ledger) == FailureKind::Layout,
        <ArchivedRc<T> as ArchivedValue>::spec_err(buf, pos, ledger)
            == SharedPointerError::<LayoutError, T::Error, LedgerError>::PointerCheckBytesError(
            layout_fail(buf, pos, T::spec_size(), T::spec_align()),
        ),
        <ArchivedRc<T> as ArchivedValue>::spec_ledger_after(buf, pos, ledger) == ledger,
        forall|checks: int|
            #[trigger] <ArchivedRc<T> as ArchivedValue>::spec_checks_after(
                buf,
                pos,
                ledger,
                checks,
            ) == checks,
{
}

/// Claims of two distinct addresses are independent: recording the first
/// leaves the second unclaimed, so both targets get their own deep payload
/// validation.
pub proof fn lemma_distinct_targets_claim_independently(
    ledger: Map<usize, u64>,
    first: usize,
    second: usize,
    token: u64,
)
    requires
        first != second,
        !ledger.contains_key(second),
    ensures
        !ledger.insert(first, token).contains_key(second),
{
}

/// A repeated claim of the identical (address, type identity) pair certifies
/// without looking at the payload at all — whatever bytes lie at the target —
/// and leaves the ledger unchanged. This is both the deduplication rule and
/// the cycle terminator.
pub proof fn lemma_repeat_claim_skips_payload<T: ArchivedValue>(
    buf: Seq<u8>,
    pos: int,
    ledger: Map<usize, u64>,
)
    requires
        in_bounds(buf, pos, T::spec_size(), T::spec_align()),
        ledger.contains_key(target_addr(buf, pos)),
        ledger[target_addr(buf, pos)] == <ArchivedRc<T> as ArchivedValue>::spec_token(),
    ensures
        <ArchivedRc<T> as ArchivedValue>::spec_ok(buf, pos, ledger),
        <ArchivedRc<T> as ArchivedValue>::spec_ledger_after(buf, pos, ledger) == ledger,
        forall|checks: int|
            #[trigger] <ArchivedRc<T> as ArchivedValue>::spec_checks_after(
                buf,
                pos,
                ledger,
                checks,
            ) == checks,
{
}

/// A first claim of a fresh in-bounds target begins exactly one deep payload
/// validation — the counter steps once, plus only whatever the payload's own
/// validator begins in turn. With the claim-independence law above, two
/// shared pointers to distinct fresh addresses therefore validate their
/// payloads independently, once each.
pub proof fn lemma_first_claim_counts_one_check<T: ArchivedValue>(
    buf: Seq<u8>,
    pos: int,
    ledger: Map<usize, u64>,
    checks: int,
)
    requires
        in_bounds(buf, pos, T::spec_size(), T::spec_align()),
        !ledger.contains_key(target_addr(buf, pos)),
    ensures
        <ArchivedRc<T> as ArchivedValue>::spec_checks_after(buf, pos, ledger, checks)
            == T::spec_checks_after(
            buf,
            rel_target(buf, pos),
            ledger.insert(target_addr(buf, pos), <ArchivedRc<T> as ArchivedValue>::spec_token()),
            next_check_count(checks),
        ),
{
}

/// An address already certified under a different type identity is fatal:
/// the claim is refused as a ledger failure (type confusion), never silently
/// accepted, and the ledger is left unchanged.
pub proof fn lemma_type_confusion_is_fatal<T: ArchivedValue>(
    buf: Seq<u8>,
    pos: int,
    ledger: Map<usize, u64>,
)
    requires
        in_bounds(buf, pos, T::spec_size(), T::spec_align()),
        ledger.contains_key(target_addr(buf, pos)),
        ledger[target_addr(buf, pos)] != <ArchivedRc<T> as ArchivedValue>::spec_token(),
    ensures
        !<ArchivedRc<T> as ArchivedValue>::spec_ok(buf, pos, ledger),
        <ArchivedRc<T> as ArchivedValue>::spec_fail(buf, pos, ledger) == FailureKind::Ledger,
        <ArchivedRc<T> as ArchivedValue>::spec_err(buf, pos, ledger)
            == SharedPointerError::<LayoutError, T::Error, LedgerError>::ContextError(
            LedgerError::TypeConflict {
                address: target_addr(buf, pos),
                existing: ledger[target_addr(buf, pos)],
                claimed: <ArchivedRc<T> as ArchivedValue>::spec_token(),
            },
        ),
        <ArchivedRc<T> as ArchivedValue>::spec_ledger_after(buf, pos, ledger) == ledger,
{
}

/// A weak pointer whose discriminant byte is the empty tag certifies without
/// inspecting any further bytes: any two buffers agreeing on that one byte
/// agree on the outcome, and the ledger never moves.
pub proof fn lemma_empty_weak_certifies<T: ArchivedValue>(
    buf: Seq<u8>,
    other: Seq<u8>,
    pos: int,
    ledger: Map<usize, u64>,
)
    requires
        buf[pos] == TAG_NONE,
        other[pos] == TAG_NONE,
    ensures
        <ArchivedRcWeak<T> as ArchivedValue>::spec_ok(buf, pos, ledger),
        <ArchivedRcWeak<T> as ArchivedValue>::spec_ok(other, pos, ledger),
        <ArchivedRcWeak<T> as ArchivedValue>::spec_ledger_after(buf, pos, ledger) == ledger,
        forall|checks: int|
            #[trigger] <ArchivedRcWeak<T> as ArchivedValue>::spec_checks_after(
                buf,
                pos,
                ledger,
                checks,
            ) == checks,
{
}

/// A weak pointer whose discriminant byte is the populated tag stands or
/// falls with the shared pointer embedded right after the discriminant's
/// padding: failure category, wrapped error value, ledger effect and
/// validation count included.
pub proof fn lemma_populated_weak_delegates<T: ArchivedValue>(
    buf: Seq<u8>,
    pos: int,
    ledger: Map<usize, u64>,
)
    requires
        buf[pos] == TAG_SOME,
    ensures
        <ArchivedRcWeak<T> as ArchivedValue>::spec_ok(buf, pos, ledger)
            == <ArchivedRc<T> as ArchivedValue>::spec_ok(
            buf,
            pos + crate::validate::WEAK_PAYLOAD_OFFSET,
            ledger,
        ),
        <ArchivedRcWeak<T> as ArchivedValue>::spec_fail(buf, pos, ledger)
            == <ArchivedRc<T> as ArchivedValue>::spec_fail(
            buf,
            pos + crate::validate::WEAK_PAYLOAD_OFFSET,
            ledger,
        ),
        <ArchivedRcWeak<T> as ArchivedValue>::spec_ledger_after(buf, pos, ledger)
            == <ArchivedRc<T> as ArchivedValue>::spec_ledger_after(
            buf,
            pos + crate::validate::WEAK_PAYLOAD_OFFSET,
            ledger,
        ),
        <ArchivedRcWeak<T> as ArchivedValue>::spec_err(buf, pos, ledger)
            == WeakPointerError::<LayoutError, T::Error, LedgerError>::CheckBytes(
            <ArchivedRc<T> as ArchivedValue>::spec_err(
                buf,
                pos + crate::validate::WEAK_PAYLOAD_OFFSET,
                ledger,
            ),
        ),
        forall|checks: int|
            #[trigger] <ArchivedRcWeak<T> as ArchivedValue>::spec_checks_after(
                buf,
                pos,
                ledger,
                checks,
            ) == <ArchivedRc<T> as ArchivedValue>::spec_checks_after(
                buf,
                pos + crate::validate::WEAK_PAYLOAD_OFFSET,
                ledger,
                checks,
            ),
{
}

/// A populated weak pointer whose embedded shared pointer does not resolve
/// in bounds fails, and the failure is a pointer-layout failure.
pub proof fn lemma_weak_out_of_bounds_is_layout_failure<T: ArchivedValue>(
    buf: Seq<u8>,
    pos: int,
    ledger: Map<usize, u64>,
)
    requires
        buf[pos] == TAG_SOME,
        !in_bounds(
            buf,
            pos + crate::validate::WEAK_PAYLOAD_OFFSET,
            T::spec_size(),
            T::spec_align(),
        ),
    ensures
        !<ArchivedRcWeak<T> as ArchivedValue>::spec_ok(buf, pos, ledger),
        <ArchivedRcWeak<T> as ArchivedValue>::spec_fail(buf, pos, ledger) == FailureKind::Layout,
        <ArchivedRcWeak<T> as ArchivedValue>::spec_err(buf, pos, ledger)
            == WeakPointerError::<LayoutError, T::Error, LedgerError>::CheckBytes(
            SharedPointerError::PointerCheckBytesError(
                layout_fail(
                    buf,
                    pos + crate::validate::WEAK_PAYLOAD_OFFSET,
                    T::spec_size(),
                    T::spec_align(),
                ),
            ),
        ),
{
}

/// A weak-pointer failure categorised as a pointer-layout failure is always
/// the wrapped form: a shared-pointer error inside the weak pointer, itself
/// wrapping the layout cause.
pub proof fn lemma_weak_layout_failure_is_wrapped<T: ArchivedValue>(
    e: &<ArchivedRcWeak<T> as ArchivedValue>::Error,
)
    requires
        <ArchivedRcWeak<T> as ArchivedValue>::failure_kind(e) == FailureKind::Layout,
    ensures
        e matches crate::error::WeakPointerError::CheckBytes(
            crate::error::SharedPointerError::PointerCheckBytesError(_),
        ),
{
}

/// A weak pointer whose discriminant byte matches neither defined tag fails
/// with an invalid-discriminant error carrying exactly that byte; the ledger
/// never moves and no payload validation begins.
pub proof fn lemma_invalid_tag_is_fatal<T: ArchivedValue>(
    buf: Seq<u8>,
    pos: int,
    ledger: Map<usize, u64>,
)
    requires
        buf[pos] != TAG_NONE,
        buf[pos] != TAG_SOME,
    ensures
        !<ArchivedRcWeak<T> as ArchivedValue>::spec_ok(buf, pos, ledger),
        <ArchivedRcWeak<T> as ArchivedValue>::spec_fail(buf, pos, ledger) == FailureKind::Tag(
            buf[pos],
        ),
        <ArchivedRcWeak<T> as ArchivedValue>::spec_err(buf, pos, ledger)
            == WeakPointerError::<LayoutError, T::Error, LedgerError>::InvalidTag(buf[pos]),
        <ArchivedRcWeak<T> as ArchivedValue>::spec_ledger_after(buf, pos, ledger) == ledger,
        forall|checks: int|
            #[trigger] <ArchivedRcWeak<T> as ArchivedValue>::spec_checks_after(
                buf,
                pos,
                ledger,
                checks,
            ) == checks,
{
}

/// A shared-pointer error wraps exactly the failing stage's own cause: the
/// resolver's verdict when and only when resolution failed, the ledger's
/// conflict record when and only when the claim was refused, and the payload
/// validator's own error when and only when a fresh payload was rejected.
pub proof fn lemma_error_wraps_failing_stage<T: ArchivedValue>(
    buf: Seq<u8>,
    pos: int,
    ledger: Map<usize, u64>,
)
    ensures
        (<ArchivedRc<T> as ArchivedValue>::spec_err(buf, pos, ledger) matches
            SharedPointerError::PointerCheckBytesError(_)) <==> !in_bounds(
            buf,
            pos,
            T::spec_size(),
            T::spec_align(),
        ),
        <ArchivedRc<T> as ArchivedValue>::spec_err(buf, pos, ledger) matches
            SharedPointerError::PointerCheckBytesError(le) ==> le == layout_fail(
            buf,
            pos,
            T::spec_size(),
            T::spec_align(),
        ),
        (<ArchivedRc<T> as ArchivedValue>::spec_err(buf, pos, ledger) matches
            SharedPointerError::ContextError(_)) <==> (in_bounds(
            buf,
            pos,
            T::spec_size(),
            T::spec_align(),
        ) && ledger.contains_key(target_addr(buf, pos))),
        <ArchivedRc<T> as ArchivedValue>::spec_err(buf, pos, ledger) matches
            SharedPointerError::ContextError(ce) ==> ce == (LedgerError::TypeConflict {
            address: target_addr(buf, pos),
            existing: ledger[target_addr(buf, pos)],
            claimed: <ArchivedRc<T> as ArchivedValue>::spec_token(),
        }),
        (<ArchivedRc<T> as ArchivedValue>::spec_err(buf, pos, ledger) matches
            SharedPointerError::ValueCheckBytesError(_)) <==> (in_bounds(
            buf,
            pos,
            T::spec_size(),
            T::spec_align(),
        ) && !ledger.contains_key(target_addr(buf, pos))),
        <ArchivedRc<T> as ArchivedValue>::spec_err(buf, pos, ledger) matches
            SharedPointerError::ValueCheckBytesError(ve) ==> ve == T::spec_err(
            buf,
            rel_target(buf, pos),
            ledger.insert(target_addr(buf, pos), <ArchivedRc<T> as ArchivedValue>::spec_token()),
        ),
{
}

/// Validation is deterministic: acceptance, the full error value with its
/// wrapped causes, its category, the final ledger and the validation count
/// are functions of the buffer, the position and the starting ledger alone,
/// so two passes over the same buffer from equal (for instance, fresh)
/// ledgers yield identical outcomes.
pub proof fn lemma_validation_deterministic<T: ArchivedValue>(
    buf1: Seq<u8>,
    buf2: Seq<u8>,
    pos: int,
    ledger1: Map<usize, u64>,
    ledger2: Map<usize, u64>,
    checks: int,
)
    requires
        buf1 == buf2,
        ledger1 == ledger2,
    ensures
        T::spec_ok(buf1, pos, ledger1) == T::spec_ok(buf2, pos, ledger2),
        T::spec_err(buf1, pos, ledger1) == T::spec_err(buf2, pos, ledger2),
        T::spec_fail(buf1, pos, ledger1) == T::spec_fail(buf2, pos, ledger2),
        T::spec_ledger_after(buf1, pos, ledger1) == T::spec_ledger_after(buf2, pos, ledger2),
        T::spec_checks_after(buf1, pos, ledger1, checks) == T::spec_checks_after(
            buf2,
            pos,
            ledger2,
            checks,
        ),
{
}

/// A shared pointer's type identity never collides with a weak pointer's:
/// the shared token is odd and the weak token is even, so an address
/// certified as one can never be silently accepted as the other.
pub proof fn lemma_shared_and_weak_tokens_differ<T: ArchivedValue>()
    ensures
        <ArchivedRc<T> as ArchivedValue>::spec_token()
            != <ArchivedRcWeak<T> as ArchivedValue>::spec_token(),
{
    let t = T::spec_token() as int;
    let m = 0x1_0000_0000_0000_0000int;
    if t < 0x8000_0000_0000_0000 {
        vstd::arithmetic::div_mod::lemma_small_mod((2 * t + 1) as nat, m as nat);
        vstd::arithmetic::div_mod::lemma_small_mod((2 * t) as nat, m as nat);
    } else {
        vstd::arithmetic::div_mod::lemma_mod_sub_multiples_vanish(2 * t + 1, m);
        vstd::arithmetic::div_mod::lemma_small_mod((2 * t + 1 - m) as nat, m as nat);
        vstd::arithmetic::div_mod::lemma_mod_sub_multiples_vanish(2 * t, m);
        vstd::arithmetic::div_mod::lemma_small_mod((2 * t - m) as nat, m as nat);
    }
}

} // verus!

