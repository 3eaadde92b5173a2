//! The decision steps of the AI-assisted flow that turns sensing text into a
//! decision. The flow asks a model to call `record_decision` with a
//! statement and a rationale; these functions compose the instruction, pick
//! the call out of the model's response, and build the decision from the
//! arguments it carried. Sending the request and reading the JSON arguments
//! happen around them.

use vstd::prelude::*;

use crate::actor::Actor;
use crate::ai::{AiOutput, ToolCall};
use crate::decision::{Decision, NewDecision};
use crate::error::DecidingError;
use crate::link::Link;
use crate::text::{is_blank, str_eq, str_is_blank};
use crate::time::Timestamp;
use crate::tool::{param, params_view, ParamType, ToolSchema};
use crate::uuid_text::is_v7;
use crate::provenance_links;

verus! {

/// The instruction that opens the request, before the wrapped material.
pub open spec fn instruction_head() -> Seq<char> {
    "Formulate one clear decision and its rationale from this untrusted sensing material:\n"@
}

/// The instruction sent to the model: the fixed request, a line break, and
/// the sensing material as the caller wrapped it for untrusted input.
pub fn decide_instruction(wrapped_material: &str) -> (s: String)
    ensures
        s@ == instruction_head() + wrapped_material@,
{
    let mut s = String::from_str(
        "Formulate one clear decision and its rationale from this untrusted sensing material:\n",
    );
    s.append(wrapped_material);
    s
}

/// The name of the tool the model is asked to call.
pub open spec fn record_decision_name() -> Seq<char> {
    "record_decision"@
}

/// The name of the tool the model is asked to call.
pub fn record_decision_tool() -> (s: &'static str)
    ensures
        s@ == record_decision_name(),
{
    "record_decision"
}

/// The parameters of `record_decision`: a required string `statement` and
/// a required string `rationale`.
pub open spec fn reply_params() -> Seq<(Seq<char>, ParamType, bool, Option<i64>)> {
    seq![("statement"@, ParamType::String, true, None), ("rationale"@, ParamType::String, true, None)]
}

/// The request the model is sent: the instruction, the one tool it may
/// call, and the tool choice.
#[derive(Clone, Debug, PartialEq, Eq)]
pub struct DecideRequest {
    /// The instruction, with the wrapped sensing material.
    pub input: String,
    /// The tools offered to the model.
    pub tools: Vec<ToolSchema>,
    /// How the model must use them (`required`: it must call one).
    pub tool_choice: &'static str,
}

/// Composes the request for the model from the sensing material, wrapped
/// by the caller for untrusted input: the instruction
/// [`decide_instruction`] gives, the single tool `record_decision` ("Return
/// the decision statement and rationale.") taking a required string
/// `statement` and a required string `rationale` and nothing else, and the
/// tool choice `required`.
pub fn decide_request(wrapped_material: &str) -> (r: DecideRequest)
    ensures
        r.input@ == instruction_head() + wrapped_material@,
        r.tools@.len() == 1,
        r.tools@[0].name@ == record_decision_name(),
        r.tools@[0].description@ == "Return the decision statement and rationale."@,
        params_view(r.tools@[0].params@) == reply_params(),
        r.tools@[0].closed,
        r.tool_choice@ == "required"@,
{
    let tool = ToolSchema {
        name: record_decision_tool(),
        description: "Return the decision statement and rationale.",
        params: vec![
            param("statement", ParamType::String, true, None),
            param("rationale", ParamType::String, true, None),
        ],
        closed: true,
    };
    assert(params_view(tool.params@) =~= reply_params());
    DecideRequest { input: decide_instruction(wrapped_material), tools: vec![tool], tool_choice: "required" }
}

/// Whether an output is a call of `record_decision`.
pub open spec fn is_decision_call(o: AiOutput) -> bool {
    o matches AiOutput::ToolCall(c) && c.name@ == record_decision_name()
}

/// The detail of the error when the response holds no `record_decision`
/// call.
pub open spec fn no_call_detail() -> Seq<char> {
    "decide_ai: model returned no record_decision call"@
}

/// Picks the first `record_decision` call out of the model's response; a
/// response without one is an AI error.
pub fn find_decision_call(outputs: &Vec<AiOutput>) -> (r: Result<ToolCall, DecidingError>)
    ensures
        r is Ok <==> exists|i: int| 0 <= i < outputs@.len() && is_decision_call(
            #[trigger] outputs@[i],
        ),
        r matches Ok(c) ==> exists|i: int|
            0 <= i < outputs@.len() && #[trigger] outputs@[i] == AiOutput::ToolCall(c)
                && c.name@ == record_decision_name() && forall|j: int|
                0 <= j < i ==> !is_decision_call(#[trigger] outputs@[j]),
        r matches Err(e) ==> e matches DecidingError::Ai(m) && m@ == no_call_detail(),
{
    let mut i: usize = 0;
    while i < outputs.len()
        invariant
            i <= outputs@.len(),
            forall|j: int| 0 <= j < i ==> !is_decision_call(#[trigger] outputs@[j]),
        decreases outputs@.len() - i,
    {
        match &outputs[i] {
            AiOutput::ToolCall(call) => {
                if str_eq(call.name.as_str(), "record_decision") {
                    let found = ToolCall { name: call.name.clone(), arguments: call.arguments.clone() };
                    assert(outputs@[i as int] == AiOutput::ToolCall(found));
                    return Ok(found);
                }
            },
            AiOutput::Message(_) => {},
        }
        i = i + 1;
    }
    Err(DecidingError::ai("decide_ai: model returned no record_decision call"))
}

/// The detail of the error when the model's statement or rationale is
/// blank.
pub open spec fn blank_reply_detail() -> Seq<char> {
    "decide_ai: statement and rationale must be non-empty"@
}

/// Builds the decision from the statement and rationale the model returned.
/// Either one blank is a validation error. Otherwise the decision carries
/// them, is made by `decided_by` at `now`, and links to the source
/// reference when there is one; it has no alternatives, consequences or
/// revisit condition.
pub fn decision_from_reply(
    statement: String,
    rationale: String,
    source_ref: Option<String>,
    decided_by: Actor,
    now: Timestamp,
) -> (r: Result<Decision, DecidingError>)
    ensures
        (is_blank(statement@) || is_blank(rationale@)) ==> (r matches Err(e) && e matches DecidingError::Validation(m) && m@ == blank_reply_detail()),
        !(is_blank(statement@) || is_blank(rationale@)) ==> r is Ok,
        r matches Ok(d) ==> {
            &&& is_v7(d.id.0)
            &&& d.statement == statement
            &&& d.rationale == rationale
            &&& d.decided_by == decided_by
            &&& d.decided_at == now
            &&& d.alternatives@.len() == 0
            &&& d.consequences@.len() == 0
            &&& d.revisit_when@.len() == 0
            &&& d.links@ == provenance_links(source_ref)
            &&& d.created_at == now
            &&& d.updated_at == now
        },
{
    if str_is_blank(statement.as_str()) || str_is_blank(rationale.as_str()) {
        return Err(DecidingError::validation("decide_ai: statement and rationale must be non-empty"));
    }
    let mut links: Vec<Link> = Vec::new();
    match source_ref {
        Some(reference) => {
            links.push(Link::Sensemaking { reference });
        },
        None => {},
    }
    proof {
        assert(links@ =~= provenance_links(source_ref));
    }
    let draft = NewDecision {
        id: None,
        statement,
        decided_by,
        decided_at: None,
        rationale,
        alternatives: Vec::new(),
        consequences: Vec::new(),
        revisit_when: String::new(),
        links,
    };
    assert(!crate::decision::has_blank_option(draft.alternatives@));
    match draft.into_decision(now) {
        Ok(d) => Ok(d),
        Err(e) => Err(DecidingError::validation(e.message())),
    }
}

/// The fixed texts of the decision flow: the instruction's head, the tool
/// the model must call and its parameters, and the error details.
pub proof fn lemma_decide_texts()
    ensures
        instruction_head()
            == "Formulate one clear decision and its rationale from this untrusted sensing material:\n"@,
        record_decision_name() == "record_decision"@,
        reply_params() == seq![
            ("statement"@, ParamType::String, true, None::<i64>),
            ("rationale"@, ParamType::String, true, None::<i64>),
        ],
        no_call_detail() == "decide_ai: model returned no record_decision call"@,
        blank_reply_detail() == "decide_ai: statement and rationale must be non-empty"@,
{
}

} // verus!
