//! What an AI provider hands back, as far as the decision flow reads it.

use vstd::prelude::*;

verus! {

/// A function call requested by the model: the function's name and its
/// arguments as JSON text.
#[derive(Clone, Debug, PartialEq, Eq)]
pub struct ToolCall {
    pub name: String,
    pub arguments: String,
}

/// One item of a model's response.
#[derive(Clone, Debug, PartialEq, Eq)]
pub enum AiOutput {
    /// Plain text from the model.
    Message(String),
    /// A request to call a tool.
    ToolCall(ToolCall),
}

} // verus!
