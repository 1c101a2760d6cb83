//! The decisions of the workspace executor.

use vstd::prelude::*;

verus! {

/// The message of an operation stopped at `stage` by a cancellation.
pub open spec fn cancelled_text(stage: Seq<char>) -> Seq<char> {
    "Operation cancelled "@ + stage
}

/// Whether indexing goes on at `stage`: it stops with an error when a
/// cancellation was handed in and it has been requested, and goes on
/// otherwise.
pub fn check_cancellation(cancellation_requested: Option<bool>, stage: &str) -> (r: Result<(), String>)
    ensures
        match r {
            Ok(()) => cancellation_requested != Some(true),
            Err(m) => cancellation_requested == Some(true) && m@ == cancelled_text(stage@),
        },
{
    match cancellation_requested {
        Some(true) => {
            let mut m = String::from_str("Operation cancelled ");
            m.append(stage);
            Err(m)
        },
        _ => Ok(()),
    }
}

} // verus!
