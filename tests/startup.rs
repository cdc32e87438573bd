use vnidrop::startup::{run_outcome, RunOutcome};

#[test]
fn run_loop_ok_completes() {
    assert!(matches!(run_outcome(Ok(())), RunOutcome::Completed));
}

#[test]
fn run_loop_error_terminates_with_message() {
    match run_outcome(Err(String::from("Runtime(CreateWebview)"))) {
        RunOutcome::Terminated(m) => {
            assert_eq!(m, "error while running tauri application: Runtime(CreateWebview)")
        }
        RunOutcome::Completed => panic!("an error must not complete"),
    }
}

#[test]
fn run_loop_empty_error_still_has_message() {
    match run_outcome(Err(String::new())) {
        RunOutcome::Terminated(m) => assert_eq!(m, "error while running tauri application: "),
        RunOutcome::Completed => panic!("an error must not complete"),
    }
}
