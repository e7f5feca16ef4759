//! The request-side model: the plain types an outbound `responses` request is
//! built from.  The surrounding application owns serialization and transport.

use vstd::prelude::*;

verus! {

/// Bound kept sealed so that only the input kinds this module blesses can be
/// used as request input items.
pub trait Sealed {
}

/// The role an input message is attributed to.
#[derive(Debug, Clone, Copy, PartialEq, Eq, PartialOrd, Ord, Hash, Structural)]
pub enum Role {
    User,
    Assistant,
    System,
    Developer,
}

/// An input item's lifecycle status.
#[derive(Debug, Clone, Copy, PartialEq, Eq, PartialOrd, Ord, Hash, Structural)]
pub enum Status {
    InProgress,
    Completed,
    Incomplete,
}

/// An outbound request: a collection of input items, the model to address,
/// and the call flags.
#[derive(Debug, Clone)]
pub struct Request<I, M> {
    pub input: I,
    pub model: M,
    pub parallel_tool_calls: bool,
    pub stream: bool,
}

/// A bare string is accepted as a user message.
impl Sealed for String {

}

} // verus!
