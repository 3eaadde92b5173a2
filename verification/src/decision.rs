//! The decision primitive: a recorded choice, with the reasoning that must
//! survive it. A decision only fixes the choice; nothing here schedules or
//! runs anything.

use vstd::prelude::*;

use crate::actor::Actor;
use crate::id::DecisionId;
use crate::link::Link;
use crate::text::{is_blank, str_is_blank};
use crate::time::Timestamp;
use crate::uuid_text::is_v7;

verus! {

/// An option that was weighed but not chosen.
#[derive(Clone, Debug, PartialEq, Eq)]
pub struct Alternative {
    /// The option that was weighed.
    pub option: String,
    /// Why it was not chosen; may be empty when self-evident.
    pub rejected_because: String,
}

/// A made-and-recorded decision.
#[derive(Clone, Debug, PartialEq, Eq)]
pub struct Decision {
    pub id: DecisionId,
    /// The choice, stated as a commitment.
    pub statement: String,
    /// Who made the decision.
    pub decided_by: Actor,
    /// When the decision was made.
    pub decided_at: Timestamp,
    /// Why: the reasoning behind the choice.
    pub rationale: String,
    /// The options that were weighed and rejected.
    pub alternatives: Vec<Alternative>,
    /// What the choice commits to or costs (trade-offs accepted).
    pub consequences: Vec<String>,
    /// When the decision should be reconsidered; empty means no review.
    pub revisit_when: String,
    /// What the decision rests on and what it informs.
    pub links: Vec<Link>,
    pub created_at: Timestamp,
    pub updated_at: Timestamp,
}

/// Why a decision, directive or link is not well-formed.
#[derive(Clone, Copy, Debug, PartialEq, Eq, Structural)]
pub enum DecisionError {
    /// The statement is empty or white space only.
    EmptyStatement,
    /// An alternative was recorded with a blank `option`.
    EmptyAlternative,
    /// A sensemaking link carries a blank reference.
    EmptyLinkReference,
}

impl DecisionError {
    /// The human-readable description of the error.
    pub open spec fn text(self) -> Seq<char> {
        match self {
            DecisionError::EmptyStatement => "decision statement must not be empty"@,
            DecisionError::EmptyAlternative => "alternative option must not be empty"@,
            DecisionError::EmptyLinkReference => "link reference must not be empty"@,
        }
    }

    /// The human-readable description of the error.
    pub fn message(&self) -> (s: &'static str)
        ensures
            s@ == self.text(),
    {
        match self {
            DecisionError::EmptyStatement => "decision statement must not be empty",
            DecisionError::EmptyAlternative => "alternative option must not be empty",
            DecisionError::EmptyLinkReference => "link reference must not be empty",
        }
    }

    /// The description as an owned string.
    pub fn to_string(&self) -> (s: String)
        ensures
            s@ == self.text(),
    {
        String::from_str(self.message())
    }
}

/// Whether some alternative in `alts` has a blank option.
pub open spec fn has_blank_option(alts: Seq<Alternative>) -> bool {
    exists|i: int| 0 <= i < alts.len() && is_blank(#[trigger] alts[i].option@)
}

/// Input for recording a decision. The id is assigned when absent, and
/// `decided_at` defaults to the time of recording.
#[derive(Clone, Debug, PartialEq, Eq)]
pub struct NewDecision {
    pub id: Option<DecisionId>,
    pub statement: String,
    pub decided_by: Actor,
    pub decided_at: Option<Timestamp>,
    pub rationale: String,
    pub alternatives: Vec<Alternative>,
    pub consequences: Vec<String>,
    pub revisit_when: String,
    pub links: Vec<Link>,
}

impl NewDecision {
    /// Which error, if any, recording this input gives: a blank statement
    /// first, then a blank alternative option.
    pub open spec fn rejection(self) -> Option<DecisionError> {
        if is_blank(self.statement@) {
            Some(DecisionError::EmptyStatement)
        } else if has_blank_option(self.alternatives@) {
            Some(DecisionError::EmptyAlternative)
        } else {
            None
        }
    }

    /// The decision recorded from this input at `now`, under the id `id`.
    pub open spec fn recorded(self, id: DecisionId, now: Timestamp) -> Decision {
        Decision {
            id,
            statement: self.statement,
            decided_by: self.decided_by,
            decided_at: match self.decided_at {
                Some(t) => t,
                None => now,
            },
            rationale: self.rationale,
            alternatives: self.alternatives,
            consequences: self.consequences,
            revisit_when: self.revisit_when,
            links: self.links,
            created_at: now,
            updated_at: now,
        }
    }

    /// Validates the input and materialises the stored decision. A blank
    /// statement is rejected, then an alternative with a blank option;
    /// otherwise every field is carried over, the id is the given one or a
    /// fresh one, `decided_at` defaults to `now`, and both record times are
    /// `now`.
    pub fn into_decision(self, now: Timestamp) -> (r: Result<Decision, DecisionError>)
        ensures
            self.rejection() matches Some(e) ==> r == Err::<Decision, DecisionError>(e),
            self.rejection() is None ==> r is Ok,
            r matches Ok(d) ==> d == self.recorded(d.id, now),
            r matches Ok(d) ==> match self.id {
                Some(id) => d.id == id,
                None => is_v7(d.id.0),
            },
    {
        if str_is_blank(self.statement.as_str()) {
            return Err(DecisionError::EmptyStatement);
        }
        let mut i: usize = 0;
        while i < self.alternatives.len()
            invariant
                i <= self.alternatives@.len(),
                !is_blank(self.statement@),
                forall|j: int| 0 <= j < i ==> !is_blank(#[trigger] self.alternatives@[j].option@),
            decreases self.alternatives@.len() - i,
        {
            if str_is_blank(self.alternatives[i].option.as_str()) {
                assert(is_blank(self.alternatives@[i as int].option@));
                return Err(DecisionError::EmptyAlternative);
            }
            i = i + 1;
        }
        let id = match self.id {
            Some(id) => id,
            None => DecisionId::new(),
        };
        let decided_at = match self.decided_at {
            Some(t) => t,
            None => now,
        };
        Ok(
            Decision {
                id,
                statement: self.statement,
                decided_by: self.decided_by,
                decided_at,
                rationale: self.rationale,
                alternatives: self.alternatives,
                consequences: self.consequences,
                revisit_when: self.revisit_when,
                links: self.links,
                created_at: now,
                updated_at: now,
            },
        )
    }
}

/// The messages of the errors.
pub proof fn lemma_error_messages()
    ensures
        DecisionError::EmptyStatement.text() == "decision statement must not be empty"@,
        DecisionError::EmptyAlternative.text() == "alternative option must not be empty"@,
        DecisionError::EmptyLinkReference.text() == "link reference must not be empty"@,
{
}

/// An input is recorded exactly when its statement is not blank and no
/// alternative's option is blank; the reason an alternative was rejected
/// may be anything, blank included. A blank statement is reported as such,
/// and a blank option, when the statement is fine, as an empty alternative.
pub proof fn lemma_decision_acceptance(nd: NewDecision)
    ensures
        nd.rejection() is None <==> (!is_blank(nd.statement@) && forall|i: int|
            0 <= i < nd.alternatives@.len() ==> !is_blank(#[trigger] nd.alternatives@[i].option@)),
        nd.rejection() == Some(DecisionError::EmptyStatement) <==> is_blank(nd.statement@),
        nd.rejection() == Some(DecisionError::EmptyAlternative) <==> (!is_blank(nd.statement@)
            && exists|i: int|
            0 <= i < nd.alternatives@.len() && is_blank(#[trigger] nd.alternatives@[i].option@)),
        nd.rejection() != Some(DecisionError::EmptyLinkReference),
{
}

/// A recorded decision keeps every field of its input, is dated by the
/// input's `decided_at` or else by the time of recording, and is created
/// and updated at the time of recording.
pub proof fn lemma_recorded_decision(nd: NewDecision, id: DecisionId, now: Timestamp)
    ensures
        nd.recorded(id, now).id == id,
        nd.recorded(id, now).statement == nd.statement,
        nd.recorded(id, now).decided_by == nd.decided_by,
        nd.decided_at matches Some(t) ==> nd.recorded(id, now).decided_at == t,
        nd.decided_at is None ==> nd.recorded(id, now).decided_at == now,
        nd.recorded(id, now).rationale == nd.rationale,
        nd.recorded(id, now).alternatives == nd.alternatives,
        nd.recorded(id, now).consequences == nd.consequences,
        nd.recorded(id, now).revisit_when == nd.revisit_when,
        nd.recorded(id, now).links == nd.links,
        nd.recorded(id, now).created_at == now,
        nd.recorded(id, now).updated_at == now,
{
}

} // verus!
