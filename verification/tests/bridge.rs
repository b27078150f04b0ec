use quest_bind::QuestError;
use quest_bind::exceptions::ErrorCaptureSlot;
use quest_bind::exceptions::catch_quest_exception;

#[test]
fn slot_starts_empty() {
    let slot = ErrorCaptureSlot::new();
    assert!(!slot.is_armed());
}

#[test]
fn default_slot_is_empty() {
    let slot = ErrorCaptureSlot::default();
    assert!(!slot.is_armed());
}

#[test]
fn callback_arms_slot_and_take_clears_it() {
    let mut slot = ErrorCaptureSlot::new();
    slot.report_invalid_input(
        String::from("Invalid probability"),
        String::from("collapseToOutcome"),
    );
    assert!(slot.is_armed());
    let record = slot.take().expect("a record was deposited");
    assert_eq!(record.err_msg, "Invalid probability");
    assert_eq!(record.err_func, "collapseToOutcome");
    assert!(!slot.is_armed());
    assert!(slot.take().is_none());
}

#[test]
fn innermost_capture_wins() {
    let mut slot = ErrorCaptureSlot::new();
    slot.report_invalid_input(String::from("first failure"), String::from("innerFunc"));
    slot.report_invalid_input(String::from("second failure"), String::from("outerFunc"));
    let record = slot.take().expect("a record was deposited");
    assert_eq!(record.err_msg, "first failure");
    assert_eq!(record.err_func, "innerFunc");
}

#[test]
fn completed_call_with_clean_slot_returns_its_value() {
    let mut slot = ErrorCaptureSlot::new();
    let r = catch_quest_exception(&mut slot, Some(42));
    assert_eq!(r, Ok(42));
    assert!(!slot.is_armed());
}

#[test]
fn interrupted_call_surfaces_the_capture_and_clears_the_slot() {
    let mut slot = ErrorCaptureSlot::new();
    slot.report_invalid_input(
        String::from("Can't collapse to state with zero probability"),
        String::from("collapseToOutcome"),
    );
    let r = catch_quest_exception(&mut slot, None::<i32>);
    match r {
        Err(QuestError::InvalidQuESTInputError { err_msg, err_func }) => {
            assert!(!err_msg.is_empty());
            assert!(!err_func.is_empty());
            assert_eq!(err_msg, "Can't collapse to state with zero probability");
            assert_eq!(err_func, "collapseToOutcome");
        }
        other => panic!("expected a native input error, got {other:?}"),
    }
    assert!(!slot.is_armed());
}

#[test]
fn error_does_not_leak_into_the_next_call() {
    let mut slot = ErrorCaptureSlot::new();
    slot.report_invalid_input(String::from("bad input"), String::from("someFunc"));
    let first = catch_quest_exception(&mut slot, None::<u8>);
    assert!(first.is_err());
    let second = catch_quest_exception(&mut slot, Some(7u8));
    assert_eq!(second, Ok(7));
    assert!(!slot.is_armed());
}
