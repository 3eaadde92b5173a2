//! `enma`: the decisions layer. It owns the goal-and-decision primitives:
//! [`decision::Decision`], a recorded choice with its statement, author,
//! rationale, weighed alternatives, accepted consequences and revisit
//! conditions, and [`directive::Directive`], the six lighter direction
//! primitives. Both link back to the sensemaking they rest on and forward to
//! the planning they inform. Nothing here executes a decision.

pub mod text;
pub mod time;
pub mod uuid_text;
pub mod id;
pub mod actor;
pub mod link;
pub mod decision;
pub mod directive;
pub mod from_sensing;
pub mod ai;
pub mod error;
pub mod decide;
pub mod tool;
pub mod mcp;

use vstd::prelude::*;

pub use actor::{Actor, ActorKind};
pub use decision::{Alternative, Decision, DecisionError, NewDecision};
pub use directive::{Directive, DirectiveKind, NewDirective};
pub use id::{DecisionId, DirectiveId, PlanId, ProjectId, TaskId};
pub use link::Link;
pub use time::Timestamp;

use crate::text::{is_blank, str_eq};
use crate::uuid_text::is_v7;

verus! {

/// Whether a sensing item of this kind is a candidate for promotion: only
/// insights and hypotheses are.
pub open spec fn is_worthy_kind(kind: Seq<char>) -> bool {
    kind == "insight"@ || kind == "hypothesis"@
}

/// Only insights and hypotheses are useful promotion candidates.
pub fn is_decision_worthy(sensing_kind: &str) -> (r: bool)
    ensures
        r == is_worthy_kind(sensing_kind@),
{
    str_eq(sensing_kind, "insight") || str_eq(sensing_kind, "hypothesis")
}

/// The rationale recorded for a decision promoted from a sensing item.
pub open spec fn promotion_rationale(source_ref: Option<String>) -> Seq<char> {
    match source_ref {
        Some(reference) => "Promoted from sensing item "@ + reference@,
        None => Seq::empty(),
    }
}

/// The provenance links of a decision promoted from a sensing item.
pub open spec fn provenance_links(source_ref: Option<String>) -> Seq<Link> {
    match source_ref {
        Some(reference) => seq![Link::Sensemaking { reference }],
        None => Seq::empty(),
    }
}

/// Only the kinds named `insight` and `hypothesis` are decision-worthy; the
/// rationale of a promoted decision names its source reference, and its one
/// link points at it; without a source there is neither.
pub proof fn lemma_sensing_promotion(reference: String)
    ensures
        is_worthy_kind("insight"@),
        is_worthy_kind("hypothesis"@),
        promotion_rationale(Some(reference)) == "Promoted from sensing item "@ + reference@,
        promotion_rationale(None) == Seq::<char>::empty(),
        provenance_links(Some(reference)) == seq![Link::Sensemaking { reference }],
        provenance_links(None) == Seq::<Link>::empty(),
{
}

/// Builds a decision from the wire fields of an upstream sensing item. The
/// statement and author are kept, the decision is dated `now`, and a given
/// source reference becomes both a sensemaking link and the rationale
/// `Promoted from sensing item <reference>`. A blank statement is rejected.
pub fn decision_from_sensing(
    statement: String,
    source_ref: Option<String>,
    decided_by: Actor,
    now: Timestamp,
) -> (r: Result<Decision, DecisionError>)
    ensures
        is_blank(statement@) ==> r == Err::<Decision, DecisionError>(DecisionError::EmptyStatement),
        !is_blank(statement@) ==> r is Ok,
        r matches Ok(d) ==> {
            &&& is_v7(d.id.0)
            &&& d.statement == statement
            &&& d.decided_by == decided_by
            &&& d.decided_at == now
            &&& d.rationale@ == promotion_rationale(source_ref)
            &&& d.alternatives@.len() == 0
            &&& d.consequences@.len() == 0
            &&& d.revisit_when@.len() == 0
            &&& d.links@ == provenance_links(source_ref)
            &&& d.created_at == now
            &&& d.updated_at == now
        },
{
    let mut links: Vec<Link> = Vec::new();
    let mut rationale = String::new();
    match source_ref {
        Some(reference) => {
            rationale = String::from_str("Promoted from sensing item ");
            rationale.append(reference.as_str());
            links.push(Link::Sensemaking { reference });
        },
        None => {},
    }
    proof {
        assert(links@ =~= provenance_links(source_ref));
    }
    let draft = NewDecision {
        id: None,
        statement,
        decided_by,
        decided_at: None,
        rationale,
        alternatives: Vec::new(),
        consequences: Vec::new(),
        revisit_when: String::new(),
        links,
    };
    assert(!decision::has_blank_option(draft.alternatives@));
    draft.into_decision(now)
}

} // verus!
