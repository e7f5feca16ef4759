//! The tool-choice model for outbound requests.

use vstd::prelude::*;

verus! {

/// Bound kept sealed so that only the modes this module blesses can be used
/// as a request's tool choice.
pub trait Sealed {
}

/// How the model may use tools.
#[derive(Debug, Clone, Copy, PartialEq, Eq, PartialOrd, Ord, Hash, Structural)]
pub enum ToolChoiceMode {
    Disabled,
    Auto,
    Required,
}

impl Sealed for ToolChoiceMode {

}

impl ToolChoiceMode {
    /// The mode's wire spelling.
    pub fn label(&self) -> (r: &'static str)
        ensures
            self is Disabled ==> r@ == "none"@,
            self is Auto ==> r@ == "auto"@,
            self is Required ==> r@ == "required"@,
    {
        match self {
            ToolChoiceMode::Disabled => "none",
            ToolChoiceMode::Auto => "auto",
            ToolChoiceMode::Required => "required",
        }
    }
}

/// How the model may use tools when restricted to an allowed set.
#[derive(Debug, Clone, Copy, PartialEq, Eq, PartialOrd, Ord, Hash, Structural)]
pub enum ToolChoiceAllowedToolMode {
    Auto,
    Required,
}

impl Sealed for ToolChoiceAllowedToolMode {

}

impl ToolChoiceAllowedToolMode {
    /// The mode's wire spelling.
    pub fn label(&self) -> (r: &'static str)
        ensures
            self is Auto ==> r@ == "auto"@,
            self is Required ==> r@ == "required"@,
    {
        match self {
            ToolChoiceAllowedToolMode::Auto => "auto",
            ToolChoiceAllowedToolMode::Required => "required",
        }
    }
}

} // verus!
