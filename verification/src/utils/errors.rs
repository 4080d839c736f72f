//! The errors the tools answer with.

use vstd::prelude::*;
use crate::text::push_str;

verus! {

/// An error answered to the MCP client.
#[derive(Debug, PartialEq)]
pub enum ToolError {
    /// The call's parameters cannot be served.
    InvalidParams(String),
    /// Something failed while serving the call.
    Internal(String),
}

/// An internal error with the given message.
pub fn internal_err(msg: &str) -> (e: ToolError)
    ensures
        e matches ToolError::Internal(m) && m@ == msg@,
{
    let mut m = String::new();
    push_str(&mut m, msg);
    ToolError::Internal(m)
}

/// The internal error of a failed operation: `context: cause`.
pub fn to_internal_err(context: &str, cause: &str) -> (e: ToolError)
    ensures
        e matches ToolError::Internal(m) && m@ == context@ + ": "@ + cause@,
{
    let mut m = String::new();
    push_str(&mut m, context);
    push_str(&mut m, ": ");
    push_str(&mut m, cause);
    ToolError::Internal(m)
}

/// An invalid-parameters error with the given message.
pub fn invalid_params(msg: &str) -> (e: ToolError)
    ensures
        e matches ToolError::InvalidParams(m) && m@ == msg@,
{
    let mut m = String::new();
    push_str(&mut m, msg);
    ToolError::InvalidParams(m)
}

} // verus!
