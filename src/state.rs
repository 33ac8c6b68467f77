use vstd::prelude::*;

verus! {

/// Where a writer stands in its lifecycle.
#[derive(Debug, Clone, Copy, PartialEq, Eq, Structural)]
pub enum WriterState {
    /// Constructed, no file bound yet.
    Unopened,
    /// Bound to a file; records may be added.
    Opened,
    /// The file was finalized; nothing more may be done with it.
    Finished,
}

/// An operation that crosses the native boundary.
#[derive(Debug, Clone, Copy, PartialEq, Eq, Structural)]
pub enum Operation {
    Open,
    Put,
    Delete,
    Finish,
}

/// The state in which `op` may be issued.
pub open spec fn required_state(op: Operation) -> WriterState {
    match op {
        Operation::Open => WriterState::Unopened,
        _ => WriterState::Opened,
    }
}

/// The state a successful `op` leads to.
pub open spec fn next_state(state: WriterState, op: Operation) -> WriterState {
    match op {
        Operation::Open => WriterState::Opened,
        Operation::Finish => WriterState::Finished,
        _ => state,
    }
}

/// Whether `op` may be issued in `state`.
pub fn is_allowed(state: WriterState, op: Operation) -> (r: bool)
    ensures
        r == (state == required_state(op)),
{
    match op {
        Operation::Open => state == WriterState::Unopened,
        _ => state == WriterState::Opened,
    }
}

/// The state reached after a successful `op` from `state`.
pub fn advance(state: WriterState, op: Operation) -> (r: WriterState)
    ensures
        r == next_state(state, op),
{
    match op {
        Operation::Open => WriterState::Opened,
        Operation::Finish => WriterState::Finished,
        _ => state,
    }
}

} // verus!
