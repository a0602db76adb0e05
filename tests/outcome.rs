use receipt_verifier::verification::{journal_value_of, outcome_of};

#[test]
fn accepted_with_word_journal() {
    let o = outcome_of(Ok(()), &[7, 0, 0, 0]);
    assert!(o.valid);
    assert_eq!(o.journal_value, Some(7));
    assert_eq!(o.message, "receipt is valid");
}

#[test]
fn journal_word_is_little_endian() {
    assert_eq!(journal_value_of(&[0x78, 0x56, 0x34, 0x12]), Some(0x1234_5678));
}

#[test]
fn journal_word_takes_first_of_several() {
    assert_eq!(journal_value_of(&[1, 0, 0, 0, 9, 9, 9, 9]), Some(1));
}

#[test]
fn empty_journal_has_no_value() {
    assert_eq!(journal_value_of(&[]), None);
}

#[test]
fn ragged_journal_has_no_value() {
    assert_eq!(journal_value_of(&[1, 2, 3, 4, 5]), None);
}

#[test]
fn accepted_with_undecodable_journal_keeps_valid() {
    let o = outcome_of(Ok(()), &[1, 2, 0xab]);
    assert!(o.valid);
    assert_eq!(o.journal_value, None);
    assert_eq!(o.message, "receipt is valid; journal is not a u32: 0102ab");
}

#[test]
fn rejected_carries_detail_and_no_value() {
    let o = outcome_of(Err("image_id mismatch".to_string()), &[7, 0, 0, 0]);
    assert!(!o.valid);
    assert_eq!(o.journal_value, None);
    assert_eq!(o.message, "receipt is invalid: image_id mismatch");
}

#[test]
fn journal_value_is_deterministic() {
    let journal = [42u8, 0, 0, 0];
    let first = outcome_of(Ok(()), &journal);
    let second = outcome_of(Ok(()), &journal);
    assert_eq!(first.journal_value, second.journal_value);
    assert_eq!(first.journal_value, Some(42));
}
