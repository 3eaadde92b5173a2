//! Tool descriptions as plain values: a tool's name, what it is for, and
//! the parameters it takes. The MCP surface lists its tools this way, and
//! the decision flow hands the model a tool this way; the JSON schema is
//! written from these values.

use vstd::prelude::*;

verus! {

/// The JSON type a parameter takes.
#[derive(Clone, Copy, Debug, PartialEq, Eq, Structural)]
pub enum ParamType {
    String,
    Integer,
    Object,
}

/// One parameter of a tool.
#[derive(Clone, Copy, Debug, PartialEq, Eq)]
pub struct ToolParam {
    pub name: &'static str,
    pub kind: ParamType,
    /// Whether a call must give it.
    pub required: bool,
    /// The least value an integer parameter may take, if bounded.
    pub minimum: Option<i64>,
}

/// A tool: its name, what it is for, its parameters, and whether
/// parameters other than these are refused.
#[derive(Clone, Debug, PartialEq, Eq)]
pub struct ToolSchema {
    pub name: &'static str,
    pub description: &'static str,
    pub params: Vec<ToolParam>,
    pub closed: bool,
}

/// A parameter as plain values: name, type, whether required, minimum.
pub open spec fn param_view(p: ToolParam) -> (Seq<char>, ParamType, bool, Option<i64>) {
    (p.name@, p.kind, p.required, p.minimum)
}

/// The parameters of a tool as plain values, in order.
pub open spec fn params_view(ps: Seq<ToolParam>) -> Seq<(Seq<char>, ParamType, bool, Option<i64>)> {
    ps.map_values(|p: ToolParam| param_view(p))
}

/// A parameter with the given name, type, requiredness and minimum.
pub fn param(name: &'static str, kind: ParamType, required: bool, minimum: Option<i64>) -> (p:
    ToolParam)
    ensures
        param_view(p) == (name@, kind, required, minimum),
{
    ToolParam { name, kind, required, minimum }
}

} // verus!
