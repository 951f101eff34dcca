//! Outcome of a spawned child process.
//!
//! The caller spawns the command, waits for it, and hands the child's exit
//! code (or its absence, when the child was killed by a signal) to
//! [`child_outcome`]; [`process_exit_code`] then says what the tool's own
//! exit code must be.

use vstd::prelude::*;

use crate::error::Error;

verus! {

/// Success exactly when the child exited with code `0`; a nonzero code is a
/// tagged failure carrying that code, and a missing code (the child was
/// killed by a signal) is a distinct failure.
pub fn child_outcome(code: Option<i32>) -> (r: Result<(), Error>)
    ensures
        code == Some(0i32) <==> r is Ok,
        (code is Some && code->0 != 0) ==> r == Result::<(), Error>::Err(
            Error::ChildExited(code->0),
        ),
        code is None ==> r == Result::<(), Error>::Err(Error::ProcessKilled),
{
    match code {
        None => Err(Error::ProcessKilled),
        Some(c) => {
            if c == 0 {
                Ok(())
            } else {
                Err(Error::ChildExited(c))
            }
        },
    }
}

/// The process exit code the tool must report for a run's outcome: `0` on
/// success, the child's own code when the child exited nonzero, and the
/// sentinel `1` for every other error.
pub fn process_exit_code(r: &Result<(), Error>) -> (c: i32)
    ensures
        r is Ok ==> c == 0,
        r matches Err(e) ==> match e {
            Error::ChildExited(n) => c == n,
            _ => c == 1,
        },
{
    match r {
        Ok(()) => 0,
        Err(Error::ChildExited(n)) => *n,
        Err(_) => 1,
    }
}

} // verus!
