use vstd::prelude::*;

use crate::state::{Operation, WriterState};

verus! {

/// Why a value could not be turned into bytes.
#[derive(Debug, Clone, PartialEq, Eq)]
pub enum EncodingError {
    /// Raw mode accepts byte sequences only.
    RawModeNeedsBytes,
    /// Structured mode accepts bytes, strings, integers and booleans as keys.
    UnsupportedKey,
    /// The value serializer returned something other than a byte sequence.
    SerializerNotBytes,
}

/// A failure of a writer operation.
#[derive(Debug, Clone, PartialEq, Eq)]
pub enum WriterError {
    /// The operation is not allowed in the writer's current state.
    WrongState { state: WriterState, op: Operation },
    /// A key or value could not be encoded under the writer's mode.
    Encoding(EncodingError),
    /// The native layer reported a failure; the message is its text.
    Native(String),
}

/// Turns the native error slot left by a boundary call into a result:
/// an empty slot hands the call's result back, a filled one becomes
/// a native failure that carries the slot's message.
pub fn check_error_slot<T>(result: T, slot: Option<String>) -> (r: Result<T, WriterError>)
    ensures
        slot.is_none() ==> r == Ok::<T, WriterError>(result),
        slot.is_some() ==> r == Err::<T, WriterError>(WriterError::Native(slot.unwrap())),
{
    match slot {
        None => Ok(result),
        Some(message) => Err(WriterError::Native(message)),
    }
}

} // verus!
