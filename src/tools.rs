//! Tool descriptors and tool errors.
use vstd::prelude::*;

verus! {

/// A tool the model may call: name, description and JSON-schema text of its parameters.
#[derive(Clone, Debug)]
pub struct ToolDescriptor {
    pub name: String,
    pub description: Option<String>,
    pub input_schema: String,
}

/// Error of a tool execution.
#[derive(Clone, Debug)]
pub enum ToolError {
    Error(String),
}

impl ToolError {
    /// The error's display text.
    pub fn message(&self) -> (r: String)
        ensures
            r@ == match self {
                ToolError::Error(m) => "Tool error: "@ + m@,
            },
    {
        match self {
            ToolError::Error(m) => {
                let mut r = String::from_str("Tool error: ");
                r.append(m.as_str());
                r
            },
        }
    }
}

} // verus!
