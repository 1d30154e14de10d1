use signal_bridge::capture::{capture_arguments, CaptureGuards, CaptureOutcome};

#[test]
fn failed_second_capture_finalizes_first() {
    let attempts: Vec<Result<u32, &str>> = vec![Ok(11), Err("not a buffer")];
    match capture_arguments(&attempts) {
        CaptureOutcome::Failed { error, finalize } => {
            assert_eq!(error, "not a buffer");
            assert_eq!(finalize, vec![11]);
        }
        CaptureOutcome::Captured(_) => panic!("capture should fail"),
    }
}

#[test]
fn later_outcomes_are_not_looked_at() {
    let attempts: Vec<Result<u32, u8>> = vec![Ok(1), Ok(2), Err(3), Ok(4), Err(5)];
    match capture_arguments(&attempts) {
        CaptureOutcome::Failed { error, finalize } => {
            assert_eq!(error, 3);
            assert_eq!(finalize, vec![1, 2]);
        }
        CaptureOutcome::Captured(_) => panic!("capture should fail"),
    }
}

#[test]
fn all_captured_in_order() {
    let attempts: Vec<Result<u32, u8>> = vec![Ok(7), Ok(8), Ok(9)];
    match capture_arguments(&attempts) {
        CaptureOutcome::Captured(saved) => assert_eq!(saved, vec![7, 8, 9]),
        CaptureOutcome::Failed { .. } => panic!("capture should succeed"),
    }
    let none: Vec<Result<u32, u8>> = vec![];
    assert!(matches!(capture_arguments(&none), CaptureOutcome::Captured(v) if v.is_empty()));
}

#[test]
fn guards_hand_back_in_capture_order() {
    let mut guards = CaptureGuards::new();
    guards.arm("a");
    guards.arm("b");
    assert_eq!(guards.abort(), vec!["a", "b"]);
    let mut guards = CaptureGuards::new();
    guards.arm(1u8);
    assert_eq!(guards.disarm(), vec![1u8]);
}
