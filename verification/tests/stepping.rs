use vex_libunwind::cursor::{
    interpret_fp_query, interpret_register_read, interpret_signal_frame, interpret_status,
    StepProtocol, UNW_STEP_END, UNW_STEP_SUCCESS,
};
use vex_libunwind::status::{UNW_EBADREG, UNW_ENOINFO, UNW_EREADONLYREG, UNW_EUNSPEC};
use vex_libunwind::UnwindError;

#[test]
fn stack_of_depth_three_steps_true_twice_then_false() {
    let mut protocol = StepProtocol::begin();
    assert!(protocol.can_step());
    assert_eq!(protocol.record_step(UNW_STEP_SUCCESS), Ok(true));
    assert!(protocol.can_step());
    assert_eq!(protocol.record_step(UNW_STEP_SUCCESS), Ok(true));
    assert!(protocol.can_step());
    assert_eq!(protocol.record_step(UNW_STEP_END), Ok(false));
    assert!(!protocol.can_step());
}

#[test]
fn stack_of_depth_one_steps_false_at_once() {
    let mut protocol = StepProtocol::begin();
    assert_eq!(protocol.record_step(UNW_STEP_END), Ok(false));
    assert!(!protocol.can_step());
}

#[test]
fn a_step_error_leaves_the_protocol_live() {
    let mut protocol = StepProtocol::begin();
    assert_eq!(protocol.record_step(UNW_ENOINFO), Err(UnwindError::NoInfo));
    assert!(protocol.can_step());
    assert_eq!(protocol.record_step(UNW_EUNSPEC), Err(UnwindError::Unspecified));
    assert!(protocol.can_step());
    assert_eq!(protocol.record_step(UNW_STEP_SUCCESS), Ok(true));
    assert!(protocol.can_step());
}

#[test]
fn a_cloned_protocol_continues_independently() {
    let mut protocol = StepProtocol::begin();
    assert_eq!(protocol.record_step(UNW_STEP_SUCCESS), Ok(true));
    let mut fork = protocol;
    assert_eq!(fork.record_step(UNW_STEP_END), Ok(false));
    assert!(!fork.can_step());
    assert!(protocol.can_step());
}

#[test]
fn register_read_hands_back_the_stored_value_on_success() {
    assert_eq!(interpret_register_read(0, 42), Ok(42));
    assert_eq!(interpret_register_read(0, 0), Ok(0));
    assert_eq!(interpret_register_read(1, usize::MAX), Ok(usize::MAX));
}

#[test]
fn register_read_of_an_invalid_register_is_bad_register() {
    assert_eq!(interpret_register_read(UNW_EBADREG, 99), Err(UnwindError::BadRegister));
}

#[test]
fn register_write_succeeds_or_classifies() {
    assert_eq!(interpret_status(0), Ok(()));
    assert_eq!(interpret_status(UNW_EBADREG), Err(UnwindError::BadRegister));
    assert_eq!(
        interpret_status(UNW_EREADONLYREG),
        Err(UnwindError::WriteToReadOnlyRegister)
    );
}

#[test]
fn only_a_positive_reply_means_a_floating_point_register() {
    assert!(interpret_fp_query(1));
    assert!(interpret_fp_query(2));
    assert!(!interpret_fp_query(0));
    assert!(!interpret_fp_query(-1));
    assert!(!interpret_fp_query(i32::MIN));
}

#[test]
fn signal_frame_query_is_positive_or_classifies() {
    assert_eq!(interpret_signal_frame(1), Ok(true));
    assert_eq!(interpret_signal_frame(2), Ok(true));
    assert_eq!(interpret_signal_frame(0), Ok(false));
    assert_eq!(interpret_signal_frame(UNW_ENOINFO), Err(UnwindError::NoInfo));
}
