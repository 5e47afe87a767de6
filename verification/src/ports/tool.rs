//! Values exchanged with tools.

use crate::json::JsonValue;
use vstd::prelude::*;

verus! {

/// Input of a tool call.
#[derive(Debug, Clone, PartialEq, Eq)]
pub struct ToolInput {
    /// Call id chosen by the provider.
    pub call_id: String,
    /// Tool name.
    pub tool_name: String,
    /// JSON arguments.
    pub arguments: JsonValue,
}

/// Model of [`ToolInput`].
#[verifier::ext_equal]
pub struct ToolInputView {
    pub call_id: Seq<char>,
    pub tool_name: Seq<char>,
    pub arguments: Seq<char>,
}

impl DeepView for ToolInput {
    type V = ToolInputView;

    open spec fn deep_view(&self) -> ToolInputView {
        ToolInputView {
            call_id: self.call_id@,
            tool_name: self.tool_name@,
            arguments: self.arguments.deep_view(),
        }
    }
}

} // verus!
