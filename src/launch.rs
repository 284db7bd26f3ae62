//! Launching a path as a process.
use vstd::prelude::*;

verus! {

/// Text of the error reported when the requested path does not exist.
pub const NOT_FOUND_MESSAGE: &'static str = "File not found.";

/// What the launcher does after it has looked the target path up.
pub enum LaunchStep {
    /// The path exists: start it as a child process.
    Spawn,
    /// The request is answered without starting anything.
    Reply(Result<(), String>),
}

/// Decides the next step once it is known whether the target path exists:
/// an existing path is spawned, a missing one is answered with
/// `NOT_FOUND_MESSAGE`.
pub fn after_lookup(exists: bool) -> (r: LaunchStep)
    ensures
        exists ==> r is Spawn,
        !exists ==> (r matches LaunchStep::Reply(Err(m)) && m@ == NOT_FOUND_MESSAGE@),
{
    if exists {
        LaunchStep::Spawn
    } else {
        LaunchStep::Reply(Err(String::from_str(NOT_FOUND_MESSAGE)))
    }
}

/// Decides the answer once the child process was asked to start: success
/// when it started, otherwise the text of the failure that was reported.
pub fn after_spawn(spawn_error: Option<String>) -> (r: Result<(), String>)
    ensures
        spawn_error is None <==> r is Ok,
        spawn_error matches Some(e) ==> (r matches Err(m) && m@ == e@),
{
    match spawn_error {
        None => Ok(()),
        Some(e) => Err(e),
    }
}

} // verus!
