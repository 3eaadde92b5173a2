//! Promotion from sensemaking: a sensing item becomes a draft decision or
//! directive that records where it came from.
//!
//! | sensing kind | draft |
//! |---|---|
//! | insight, hypothesis | a [`NewDecision`] |
//! | knowledge | a [`NewDirective`] of kind assumption |
//! | anything else | none: not yet decision-worthy |
//!
//! Every draft carries one sensemaking link whose reference is the source
//! item's id: provenance is never optional.

use vstd::prelude::*;

use crate::actor::Actor;
use crate::decision::NewDecision;
use crate::directive::{DirectiveKind, NewDirective};
use crate::link::Link;

verus! {

/// The kinds of item that sensemaking produces.
#[derive(Clone, Copy, Debug, PartialEq, Eq, Structural, Hash)]
pub enum SensingItemKind {
    Insight,
    Hypothesis,
    Knowledge,
    Question,
    Risk,
    Contradiction,
    RejectedIdea,
    ResearchGap,
}

impl SensingItemKind {
    /// The kind's wire name.
    pub open spec fn name(self) -> Seq<char> {
        match self {
            SensingItemKind::Insight => "insight"@,
            SensingItemKind::Hypothesis => "hypothesis"@,
            SensingItemKind::Knowledge => "knowledge"@,
            SensingItemKind::Question => "question"@,
            SensingItemKind::Risk => "risk"@,
            SensingItemKind::Contradiction => "contradiction"@,
            SensingItemKind::RejectedIdea => "rejected_idea"@,
            SensingItemKind::ResearchGap => "research_gap"@,
        }
    }

    /// The kind's wire name.
    pub fn as_str(&self) -> (s: &'static str)
        ensures
            s@ == self.name(),
    {
        match self {
            SensingItemKind::Insight => "insight",
            SensingItemKind::Hypothesis => "hypothesis",
            SensingItemKind::Knowledge => "knowledge",
            SensingItemKind::Question => "question",
            SensingItemKind::Risk => "risk",
            SensingItemKind::Contradiction => "contradiction",
            SensingItemKind::RejectedIdea => "rejected_idea",
            SensingItemKind::ResearchGap => "research_gap",
        }
    }
}

/// The kinds that are promoted to a decision are exactly the kinds whose
/// name counts as decision-worthy: insight and hypothesis.
pub proof fn lemma_decision_kinds_are_worthy(k: SensingItemKind)
    ensures
        crate::is_worthy_kind(k.name()) <==> (k == SensingItemKind::Insight || k
            == SensingItemKind::Hypothesis),
{
    reveal_strlit("insight");
    reveal_strlit("hypothesis");
    reveal_strlit("knowledge");
    reveal_strlit("question");
    reveal_strlit("risk");
    reveal_strlit("contradiction");
    reveal_strlit("rejected_idea");
    reveal_strlit("research_gap");
    let n = k.name();
    if k != SensingItemKind::Insight && k != SensingItemKind::Hypothesis {
        if n.len() == "insight"@.len() {
            assert(n[0] != "insight"@[0]);
        }
        if n.len() == "hypothesis"@.len() {
            assert(n[0] != "hypothesis"@[0]);
        }
    }
}

/// The wire name of each sensing kind.
pub proof fn lemma_sensing_kind_names()
    ensures
        SensingItemKind::Insight.name() == "insight"@,
        SensingItemKind::Hypothesis.name() == "hypothesis"@,
        SensingItemKind::Knowledge.name() == "knowledge"@,
        SensingItemKind::Question.name() == "question"@,
        SensingItemKind::Risk.name() == "risk"@,
        SensingItemKind::Contradiction.name() == "contradiction"@,
        SensingItemKind::RejectedIdea.name() == "rejected_idea"@,
        SensingItemKind::ResearchGap.name() == "research_gap"@,
{
}

/// The rationale of a draft names the item's kind and id, and its one link
/// points back at the item.
pub proof fn lemma_draft_provenance(item: SensingItem)
    ensures
        draft_rationale(item) == "Promoted from sensemaking "@ + item.kind.name() + " ("@ + item.id@
            + ")"@,
        provenance(item).len() == 1,
        provenance(item)[0] == (Link::Sensemaking { reference: item.id }),
{
}

/// An item surfaced by sensemaking, as far as promotion reads it: its id
/// (in its text form), its kind and its body.
#[derive(Clone, Debug, PartialEq, Eq)]
pub struct SensingItem {
    pub id: String,
    pub kind: SensingItemKind,
    pub body: String,
}

/// The two outcomes a sensing item can be promoted to.
pub enum SensingDraft {
    Decision(NewDecision),
    Directive(NewDirective),
}

/// The rationale of a draft promoted from `item`:
/// `Promoted from sensemaking <kind> (<id>)`.
pub open spec fn draft_rationale(item: SensingItem) -> Seq<char> {
    "Promoted from sensemaking "@ + item.kind.name() + " ("@ + item.id@ + ")"@
}

/// The single provenance link of a draft promoted from `item`.
pub open spec fn provenance(item: SensingItem) -> Seq<Link> {
    seq![Link::Sensemaking { reference: item.id }]
}

/// Promotes a sensing item into a draft decision (insight, hypothesis) or a
/// draft assumption directive (knowledge); other kinds give `None`. The
/// draft's statement is the item's body, its author is `actor`, its
/// rationale names the item's kind and id, and its one link points back at
/// the item.
pub fn draft_from_sensing(item: &SensingItem, actor: Actor) -> (r: Option<SensingDraft>)
    ensures
        r is Some <==> (item.kind == SensingItemKind::Insight || item.kind
            == SensingItemKind::Hypothesis || item.kind == SensingItemKind::Knowledge),
        r matches Some(SensingDraft::Decision(d)) ==> {
            &&& item.kind == SensingItemKind::Insight || item.kind == SensingItemKind::Hypothesis
            &&& d.id is None
            &&& d.statement == item.body
            &&& d.decided_by == actor
            &&& d.decided_at is None
            &&& d.rationale@ == draft_rationale(*item)
            &&& d.alternatives@.len() == 0
            &&& d.consequences@.len() == 0
            &&& d.revisit_when@.len() == 0
            &&& d.links@ == provenance(*item)
        },
        r matches Some(SensingDraft::Directive(d)) ==> {
            &&& item.kind == SensingItemKind::Knowledge
            &&& d.id is None
            &&& d.kind == DirectiveKind::Assumption
            &&& d.statement == item.body
            &&& d.set_by == actor
            &&& d.rationale@ == draft_rationale(*item)
            &&& d.links@ == provenance(*item)
        },
{
    match item.kind {
        SensingItemKind::Insight | SensingItemKind::Hypothesis | SensingItemKind::Knowledge => {},
        _ => {
            return None;
        },
    }
    let mut rationale = String::from_str("Promoted from sensemaking ");
    rationale.append(item.kind.as_str());
    rationale.append(" (");
    rationale.append(item.id.as_str());
    rationale.append(")");
    let mut links: Vec<Link> = Vec::new();
    links.push(Link::Sensemaking { reference: item.id.clone() });
    proof {
        assert(links@ =~= provenance(*item));
        assert(rationale@ =~= draft_rationale(*item));
    }
    match item.kind {
        SensingItemKind::Knowledge => Some(
            SensingDraft::Directive(
                NewDirective {
                    id: None,
                    kind: DirectiveKind::Assumption,
                    statement: item.body.clone(),
                    set_by: actor,
                    rationale,
                    links,
                },
            ),
        ),
        _ => Some(
            SensingDraft::Decision(
                NewDecision {
                    id: None,
                    statement: item.body.clone(),
                    decided_by: actor,
                    decided_at: None,
                    rationale,
                    alternatives: Vec::new(),
                    consequences: Vec::new(),
                    revisit_when: String::new(),
                    links,
                },
            ),
        ),
    }
}

} // verus!
