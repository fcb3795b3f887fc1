use rc_validation::context::ArchiveContext;
use rc_validation::error::{LayoutError, LedgerError, SharedPointerError, WeakPointerError};
use rc_validation::ledger::SharedLedger;
use rc_validation::primitive::{ArchivedBool, ArchivedU32, InvalidBoolByte};
use rc_validation::validate::{ArchivedRc, ArchivedRcWeak, ArchivedValue};

fn ctx(bytes: &[u8]) -> ArchiveContext {
    ArchiveContext::new(bytes.to_vec())
}

#[test]
fn shared_in_bounds_valid_payload_certifies() {
    // Offset 4 from position 0: the u32 payload lies at bytes 4..8.
    let mut c = ctx(&[4, 0, 0, 0, 9, 9, 9, 9]);
    let r = <ArchivedRc<ArchivedU32> as ArchivedValue>::check_bytes(&mut c, 0);
    assert_eq!(r, Ok(()));
    assert_eq!(c.payload_checks, 1);
}

#[test]
fn shared_overrun_is_pointer_layout_error() {
    // Offset 8 resolves to the end of the buffer: no room for 4 payload bytes.
    let mut c = ctx(&[8, 0, 0, 0, 0, 0, 0, 0]);
    let r = <ArchivedRc<ArchivedU32> as ArchivedValue>::check_bytes(&mut c, 0);
    assert_eq!(
        r,
        Err(SharedPointerError::PointerCheckBytesError(LayoutError::Overrun))
    );
    assert_eq!(c.payload_checks, 0);
}

#[test]
fn shared_underflow_is_pointer_layout_error() {
    // Offset -8 in two's complement resolves before the buffer start.
    let mut c = ctx(&[0xF8, 0xFF, 0xFF, 0xFF, 0, 0, 0, 0]);
    let r = <ArchivedRc<ArchivedU32> as ArchivedValue>::check_bytes(&mut c, 0);
    assert_eq!(
        r,
        Err(SharedPointerError::PointerCheckBytesError(LayoutError::Underflow))
    );
}

#[test]
fn shared_misaligned_is_pointer_layout_error() {
    // Offset 5 resolves in bounds but not to a 4-aligned address.
    let mut c = ctx(&[5, 0, 0, 0, 0, 0, 0, 0, 0, 0, 0, 0]);
    let r = <ArchivedRc<ArchivedU32> as ArchivedValue>::check_bytes(&mut c, 0);
    assert_eq!(
        r,
        Err(SharedPointerError::PointerCheckBytesError(LayoutError::Unaligned))
    );
}

#[test]
fn distinct_targets_validate_independently() {
    // Two shared pointers to different addresses holding equal payload bytes:
    // both claims hand out a payload handle, so the payload validator runs twice.
    let buf = [8, 0, 0, 0, 8, 0, 0, 0, 7, 7, 7, 7, 7, 7, 7, 7];
    let mut c = ctx(&buf);
    assert_eq!(
        <ArchivedRc<ArchivedU32> as ArchivedValue>::check_bytes(&mut c, 0),
        Ok(())
    );
    assert_eq!(
        <ArchivedRc<ArchivedU32> as ArchivedValue>::check_bytes(&mut c, 4),
        Ok(())
    );
    assert_eq!(c.payload_checks, 2);
}

#[test]
fn same_target_same_type_validates_payload_once() {
    // Both pointers resolve to address 8 under the same declared type: the
    // second claim is a repeat of the identical pair and skips the payload.
    let buf = [8, 0, 0, 0, 4, 0, 0, 0, 7, 7, 7, 7];
    let mut c = ctx(&buf);
    assert_eq!(
        <ArchivedRc<ArchivedU32> as ArchivedValue>::check_bytes(&mut c, 0),
        Ok(())
    );
    assert_eq!(
        <ArchivedRc<ArchivedU32> as ArchivedValue>::check_bytes(&mut c, 4),
        Ok(())
    );
    assert_eq!(c.payload_checks, 1);
}

#[test]
fn same_target_different_type_is_ledger_error() {
    // Address 8 claimed first as a shared u32, then as a shared bool: type
    // confusion, reported as a context (ledger) error.
    let buf = [8, 0, 0, 0, 4, 0, 0, 0, 0, 0, 0, 0];
    let mut c = ctx(&buf);
    assert_eq!(
        <ArchivedRc<ArchivedU32> as ArchivedValue>::check_bytes(&mut c, 0),
        Ok(())
    );
    let r = <ArchivedRc<ArchivedBool> as ArchivedValue>::check_bytes(&mut c, 4);
    let existing = <ArchivedRc<ArchivedU32> as ArchivedValue>::type_token();
    let claimed = <ArchivedRc<ArchivedBool> as ArchivedValue>::type_token();
    assert_eq!(
        r,
        Err(SharedPointerError::ContextError(LedgerError::TypeConflict {
            address: 8,
            existing,
            claimed,
        }))
    );
    assert_ne!(existing, claimed);
    assert_eq!(c.payload_checks, 1);
}

#[test]
fn shared_invalid_payload_is_value_error() {
    // The pointed-to bool byte is 2: the payload's own validator rejects it.
    let mut c = ctx(&[4, 0, 0, 0, 2, 0, 0, 0]);
    let r = <ArchivedRc<ArchivedBool> as ArchivedValue>::check_bytes(&mut c, 0);
    assert_eq!(
        r,
        Err(SharedPointerError::ValueCheckBytesError(InvalidBoolByte { byte: 2 }))
    );
    assert_eq!(c.payload_checks, 1);
}

#[test]
fn shared_valid_bool_payload_certifies() {
    let mut c = ctx(&[4, 0, 0, 0, 1, 0, 0, 0]);
    let r = <ArchivedRc<ArchivedBool> as ArchivedValue>::check_bytes(&mut c, 0);
    assert_eq!(r, Ok(()));
}

#[test]
fn weak_empty_tag_certifies_without_reading_more() {
    // Discriminant 0: valid at once; the garbage where a shared pointer would
    // sit is never inspected and no payload validation happens.
    let mut c = ctx(&[0, 0xAB, 0xCD, 0xEF, 0xFF, 0xFF, 0xFF, 0xFF]);
    let r = <ArchivedRcWeak<ArchivedU32> as ArchivedValue>::check_bytes(&mut c, 0);
    assert_eq!(r, Ok(()));
    assert_eq!(c.payload_checks, 0);
}

#[test]
fn weak_populated_delegates_to_shared() {
    // Discriminant 1; the embedded shared pointer at offset 4 resolves to the
    // u32 payload at bytes 8..12.
    let mut c = ctx(&[1, 0, 0, 0, 4, 0, 0, 0, 7, 7, 7, 7]);
    let r = <ArchivedRcWeak<ArchivedU32> as ArchivedValue>::check_bytes(&mut c, 0);
    assert_eq!(r, Ok(()));
    assert_eq!(c.payload_checks, 1);
}

#[test]
fn weak_populated_out_of_bounds_is_wrapped_layout_error() {
    // The embedded shared pointer at offset 4 resolves past the buffer end:
    // the failure surfaces as a shared-pointer layout error inside the weak.
    let mut c = ctx(&[1, 0, 0, 0, 8, 0, 0, 0]);
    let r = <ArchivedRcWeak<ArchivedU32> as ArchivedValue>::check_bytes(&mut c, 0);
    assert_eq!(
        r,
        Err(WeakPointerError::CheckBytes(
            SharedPointerError::PointerCheckBytesError(LayoutError::Overrun)
        ))
    );
}

#[test]
fn weak_invalid_tag_carries_the_byte() {
    let mut c = ctx(&[2, 0, 0, 0, 4, 0, 0, 0]);
    let r = <ArchivedRcWeak<ArchivedU32> as ArchivedValue>::check_bytes(&mut c, 0);
    assert_eq!(r, Err(WeakPointerError::InvalidTag(2)));
    // Any byte outside the two defined tags is equally fatal.
    let mut c2 = ctx(&[200, 0, 0, 0, 4, 0, 0, 0]);
    let r2 = <ArchivedRcWeak<ArchivedU32> as ArchivedValue>::check_bytes(&mut c2, 0);
    assert_eq!(r2, Err(WeakPointerError::InvalidTag(200)));
}

#[test]
fn validation_is_deterministic_across_fresh_ledgers() {
    let buf = [1, 0, 0, 0, 4, 0, 0, 0, 7, 7, 7, 7];
    let mut c1 = ctx(&buf);
    let mut c2 = ctx(&buf);
    let r1 = <ArchivedRcWeak<ArchivedU32> as ArchivedValue>::check_bytes(&mut c1, 0);
    let r2 = <ArchivedRcWeak<ArchivedU32> as ArchivedValue>::check_bytes(&mut c2, 0);
    assert_eq!(r1, r2);
    assert_eq!(c1.payload_checks, c2.payload_checks);

    let bad = [1, 0, 0, 0, 99, 0, 0, 0];
    let mut c3 = ctx(&bad);
    let mut c4 = ctx(&bad);
    let r3 = <ArchivedRcWeak<ArchivedU32> as ArchivedValue>::check_bytes(&mut c3, 0);
    let r4 = <ArchivedRcWeak<ArchivedU32> as ArchivedValue>::check_bytes(&mut c4, 0);
    assert_eq!(r3, r4);
}

#[test]
fn nested_weak_inside_shared() {
    // A shared pointer to a weak pointer that itself embeds a shared pointer
    // to a bool: both shared targets are claimed, both payloads validated.
    let buf = [4, 0, 0, 0, 1, 0, 0, 0, 4, 0, 0, 0, 1, 0, 0, 0];
    let mut c = ctx(&buf);
    let r = <ArchivedRc<ArchivedRcWeak<ArchivedBool>> as ArchivedValue>::check_bytes(&mut c, 0);
    assert_eq!(r, Ok(()));
    assert_eq!(c.payload_checks, 2);
}

#[test]
fn ledger_claim_sequence() {
    let mut ledger = SharedLedger::new();
    // First claim of (8, 11): payload handle handed out.
    assert_eq!(ledger.claim(8, 11), Ok(Some(8)));
    // Identical pair again: already trusted, nothing to validate.
    assert_eq!(ledger.claim(8, 11), Ok(None));
    // Same address, different identity: type confusion.
    assert_eq!(
        ledger.claim(8, 15),
        Err(LedgerError::TypeConflict { address: 8, existing: 11, claimed: 15 })
    );
    // A different address is unaffected.
    assert_eq!(ledger.claim(12, 15), Ok(Some(12)));
}

#[test]
fn distinct_pointer_types_have_distinct_tokens() {
    let u = <ArchivedU32 as ArchivedValue>::type_token();
    let b = <ArchivedBool as ArchivedValue>::type_token();
    let rc_u = <ArchivedRc<ArchivedU32> as ArchivedValue>::type_token();
    let rc_b = <ArchivedRc<ArchivedBool> as ArchivedValue>::type_token();
    let weak_u = <ArchivedRcWeak<ArchivedU32> as ArchivedValue>::type_token();
    let tokens = [u, b, rc_u, rc_b, weak_u];
    for i in 0..tokens.len() {
        for j in 0..tokens.len() {
            if i != j {
                assert_ne!(tokens[i], tokens[j]);
            }
        }
    }
}

#[test]
fn double_indirection_certifies() {
    // A shared pointer to a shared pointer to a bool: two claims, two
    // payload validations, innermost last.
    let buf = [4, 0, 0, 0, 4, 0, 0, 0, 1, 0, 0, 0];
    let mut c = ArchiveContext::new(buf.to_vec());
    let r = <ArchivedRc<ArchivedRc<ArchivedBool>> as ArchivedValue>::check_bytes(&mut c, 0);
    assert_eq!(r, Ok(()));
    assert_eq!(c.payload_checks, 2);
}

#[test]
fn claim_is_recorded_before_payload_validation() {
    // The ledger records the claim before the payload validator runs, which
    // is what terminates cycles: after a payload failure the pair stays
    // claimed, so a repeat visit of the identical pair is accepted without
    // re-reading the payload.
    let buf = [4, 0, 0, 0, 2, 0, 0, 0];
    let mut c = ArchiveContext::new(buf.to_vec());
    let first = <ArchivedRc<ArchivedBool> as ArchivedValue>::check_bytes(&mut c, 0);
    assert!(matches!(
        first,
        Err(SharedPointerError::ValueCheckBytesError(InvalidBoolByte { byte: 2 }))
    ));
    let second = <ArchivedRc<ArchivedBool> as ArchivedValue>::check_bytes(&mut c, 0);
    assert_eq!(second, Ok(()));
    assert_eq!(c.payload_checks, 1);
}

#[test]
fn resolver_reports_exact_target_and_cause() {
    // Offset 6 from position 2: the target is byte 8.
    let c = ctx(&[0, 0, 6, 0, 0, 0, 0, 0, 9, 9, 9, 9]);
    assert_eq!(c.check_rel_ptr(2, 4, 1), Ok(8));
    // A 4-aligned read at 8 of 4 bytes fits exactly.
    assert_eq!(c.check_rel_ptr(2, 4, 4), Ok(8));
    // Five bytes would overrun.
    assert_eq!(c.check_rel_ptr(2, 5, 1), Err(LayoutError::Overrun));
    // Underflow wins over any other cause.
    let neg = ctx(&[0xFF, 0xFF, 0xFF, 0xFF, 0, 0, 0, 0]);
    assert_eq!(neg.check_rel_ptr(0, 1, 1), Err(LayoutError::Underflow));
    // Offset 4 from position 2 resolves to byte 6, which is not 4-aligned.
    let c2 = ctx(&[0, 0, 4, 0, 0, 0, 0, 0, 9, 9, 9, 9]);
    assert_eq!(c2.check_rel_ptr(2, 2, 4), Err(LayoutError::Unaligned));
}
