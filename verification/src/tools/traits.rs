//! What every tool describes of itself and reports back.

use vstd::prelude::*;

verus! {

/// One argument a tool accepts.
#[derive(Debug, Clone)]
pub struct ToolArgument {
    pub name: String,
    pub arg_type: String,
    pub required: bool,
    pub description: String,
}

/// A tool's name, purpose and arguments, as offered to the model.
#[derive(Debug, Clone)]
pub struct ToolDefinition {
    pub name: String,
    pub description: String,
    pub arguments: Vec<ToolArgument>,
}

/// The report of one tool run.
#[derive(Debug, Clone)]
pub struct ToolResult {
    pub success: bool,
    pub output: String,
    pub error: Option<String>,
}

/// The argument has the given name, type, requiredness and description.
pub open spec fn argument_is(a: ToolArgument, name: Seq<char>, arg_type: Seq<char>, required: bool, description: Seq<char>) -> bool {
    &&& a.name@ == name
    &&& a.arg_type@ == arg_type
    &&& a.required == required
    &&& a.description@ == description
}

/// The report says success or failure, with this output and this error text.
pub open spec fn result_is(r: ToolResult, success: bool, output: Seq<char>, error: Option<Seq<char>>) -> bool {
    &&& r.success == success
    &&& r.output@ == output
    &&& match (r.error, error) {
        (Some(e), Some(t)) => e@ == t,
        (None, None) => true,
        _ => false,
    }
}

/// A failed run with no output and the given error text.
pub fn failure(error: String) -> (r: ToolResult)
    ensures
        result_is(r, false, Seq::empty(), Some(error@)),
{
    ToolResult { success: false, output: String::new(), error: Some(error) }
}

/// A successful run with the given output and no error.
pub fn success(output: String) -> (r: ToolResult)
    ensures
        result_is(r, true, output@, None),
{
    ToolResult { success: true, output, error: None }
}

} // verus!
