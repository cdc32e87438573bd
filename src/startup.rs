use vstd::prelude::*;

verus! {

/// What becomes of the process once the framework's run loop has returned.
#[derive(Debug)]
pub enum RunOutcome {
    /// The run loop ended normally.
    Completed,
    /// The run loop failed to start or run: the process ends with this message.
    Terminated(String),
}

/// The message with which the process ends when the run loop reports `err`.
pub open spec fn failure_message(err: Seq<char>) -> Seq<char> {
    "error while running tauri application: "@ + err
}

/// Decides what follows the run loop: a normal end where it returned `Ok`,
/// and otherwise termination with a message that carries the error. Startup
/// has these two outcomes and no third, and a termination always says why.
pub fn run_outcome(result: Result<(), String>) -> (r: RunOutcome)
    ensures
        result is Ok <==> r is Completed,
        result is Err <==> r is Terminated,
        r matches RunOutcome::Terminated(m) ==> m@ == failure_message(result->Err_0@)
            && m@.len() > 0,
{
    match result {
        Ok(()) => RunOutcome::Completed,
        Err(e) => {
            let mut m = String::from_str("error while running tauri application: ");
            proof {
                reveal_strlit("error while running tauri application: ");
            }
            m.append(e.as_str());
            RunOutcome::Terminated(m)
        },
    }
}

} // verus!
