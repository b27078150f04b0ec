use quest_bind::QuestError;
use quest_bind::ops::validate_c_string;

#[test]
fn ordinary_path_crosses_the_text_boundary() {
    assert_eq!(validate_c_string("hamiltonian.txt"), Ok(()));
}

#[test]
fn empty_string_is_accepted() {
    assert_eq!(validate_c_string(""), Ok(()));
}

#[test]
fn interior_nul_is_rejected_with_its_position() {
    assert_eq!(validate_c_string("bad\0name"), Err(QuestError::NulError(3)));
}

#[test]
fn leading_nul_is_rejected_at_position_zero() {
    assert_eq!(validate_c_string("\0"), Err(QuestError::NulError(0)));
}

#[test]
fn trailing_nul_is_rejected() {
    assert_eq!(validate_c_string("report.qasm\0"), Err(QuestError::NulError(11)));
}

#[test]
fn position_counts_bytes_not_characters() {
    // A two-byte character precedes the NUL, so the byte position is 2.
    assert_eq!(validate_c_string("é\0"), Err(QuestError::NulError(2)));
}
