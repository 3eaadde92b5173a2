//! The lightweight direction primitives: goal, non-goal, constraint,
//! assumption, principle and success criteria. They share one shape (a
//! statement, an optional rationale, an author and cross-layer links), so
//! they are one [`Directive`] discriminated by [`DirectiveKind`].

use vstd::prelude::*;

use crate::actor::Actor;
use crate::decision::DecisionError;
use crate::id::DirectiveId;
use crate::link::Link;
use crate::text::{is_blank, str_eq, str_is_blank};
use crate::time::Timestamp;
use crate::uuid_text::is_v7;

verus! {

/// Which kind of direction a [`Directive`] expresses.
#[derive(Clone, Copy, Debug, PartialEq, Eq, Structural, Hash)]
pub enum DirectiveKind {
    /// An outcome being aimed for.
    Goal,
    /// Something explicitly out of scope.
    NonGoal,
    /// A hard boundary the solution must respect.
    Constraint,
    /// Something taken as true without proof, revisited if it breaks.
    Assumption,
    /// A durable value that guides future choices.
    Principle,
    /// How it will be known that a goal was met.
    SuccessCriteria,
}

impl DirectiveKind {
    /// The stable discriminant stored for the kind.
    pub open spec fn name(self) -> Seq<char> {
        match self {
            DirectiveKind::Goal => "goal"@,
            DirectiveKind::NonGoal => "non_goal"@,
            DirectiveKind::Constraint => "constraint"@,
            DirectiveKind::Assumption => "assumption"@,
            DirectiveKind::Principle => "principle"@,
            DirectiveKind::SuccessCriteria => "success_criteria"@,
        }
    }

    /// The kind whose discriminant is `s`, if any.
    pub open spec fn named(s: Seq<char>) -> Option<DirectiveKind> {
        if s == "goal"@ {
            Some(DirectiveKind::Goal)
        } else if s == "non_goal"@ {
            Some(DirectiveKind::NonGoal)
        } else if s == "constraint"@ {
            Some(DirectiveKind::Constraint)
        } else if s == "assumption"@ {
            Some(DirectiveKind::Assumption)
        } else if s == "principle"@ {
            Some(DirectiveKind::Principle)
        } else if s == "success_criteria"@ {
            Some(DirectiveKind::SuccessCriteria)
        } else {
            None
        }
    }

    /// The stable discriminant stored for the kind.
    pub fn as_str(&self) -> (s: &'static str)
        ensures
            s@ == self.name(),
    {
        match self {
            DirectiveKind::Goal => "goal",
            DirectiveKind::NonGoal => "non_goal",
            DirectiveKind::Constraint => "constraint",
            DirectiveKind::Assumption => "assumption",
            DirectiveKind::Principle => "principle",
            DirectiveKind::SuccessCriteria => "success_criteria",
        }
    }

    /// Parses a stored discriminant; `None` for an unknown one, so a kind
    /// from a newer producer is simply unmatched.
    pub fn parse_str(s: &str) -> (r: Option<Self>)
        ensures
            r == Self::named(s@),
    {
        if str_eq(s, "goal") {
            Some(DirectiveKind::Goal)
        } else if str_eq(s, "non_goal") {
            Some(DirectiveKind::NonGoal)
        } else if str_eq(s, "constraint") {
            Some(DirectiveKind::Constraint)
        } else if str_eq(s, "assumption") {
            Some(DirectiveKind::Assumption)
        } else if str_eq(s, "principle") {
            Some(DirectiveKind::Principle)
        } else if str_eq(s, "success_criteria") {
            Some(DirectiveKind::SuccessCriteria)
        } else {
            None
        }
    }
}

/// Every kind's discriminant parses back to that kind, and a discriminant
/// that parses names exactly the kind it parses to.
pub proof fn lemma_kind_name_round_trip(k: DirectiveKind, s: Seq<char>)
    ensures
        DirectiveKind::named(k.name()) == Some(k),
        DirectiveKind::named(s) == Some(k) ==> s == k.name(),
{
    reveal_strlit("goal");
    reveal_strlit("non_goal");
    reveal_strlit("constraint");
    reveal_strlit("assumption");
    reveal_strlit("principle");
    reveal_strlit("success_criteria");
    let names = seq!["goal"@, "non_goal"@, "constraint"@, "assumption"@, "principle"@, "success_criteria"@];
    assert forall|i: int, j: int| 0 <= i < j < 6 implies names[i] != names[j] by {
        if names[i].len() == names[j].len() {
            assert(names[i][0] != names[j][0]);
        }
    }
    assert(names[0] == "goal"@);
    assert(names[1] == "non_goal"@);
    assert(names[2] == "constraint"@);
    assert(names[3] == "assumption"@);
    assert(names[4] == "principle"@);
    assert(names[5] == "success_criteria"@);
}

/// The stored name of each kind is its charter name, and each charter
/// name parses to its kind.
pub proof fn lemma_kind_charter_names()
    ensures
        DirectiveKind::Goal.name() == "goal"@,
        DirectiveKind::NonGoal.name() == "non_goal"@,
        DirectiveKind::Constraint.name() == "constraint"@,
        DirectiveKind::Assumption.name() == "assumption"@,
        DirectiveKind::Principle.name() == "principle"@,
        DirectiveKind::SuccessCriteria.name() == "success_criteria"@,
        DirectiveKind::named("goal"@) == Some(DirectiveKind::Goal),
        DirectiveKind::named("non_goal"@) == Some(DirectiveKind::NonGoal),
        DirectiveKind::named("constraint"@) == Some(DirectiveKind::Constraint),
        DirectiveKind::named("assumption"@) == Some(DirectiveKind::Assumption),
        DirectiveKind::named("principle"@) == Some(DirectiveKind::Principle),
        DirectiveKind::named("success_criteria"@) == Some(DirectiveKind::SuccessCriteria),
{
    lemma_kind_name_round_trip(DirectiveKind::Goal, Seq::empty());
    lemma_kind_name_round_trip(DirectiveKind::NonGoal, Seq::empty());
    lemma_kind_name_round_trip(DirectiveKind::Constraint, Seq::empty());
    lemma_kind_name_round_trip(DirectiveKind::Assumption, Seq::empty());
    lemma_kind_name_round_trip(DirectiveKind::Principle, Seq::empty());
    lemma_kind_name_round_trip(DirectiveKind::SuccessCriteria, Seq::empty());
}

/// A lightweight direction primitive. Like a decision it only fixes
/// direction; it never executes.
#[derive(Clone, Debug, PartialEq, Eq)]
pub struct Directive {
    pub id: DirectiveId,
    pub kind: DirectiveKind,
    /// The direction, stated plainly.
    pub statement: String,
    /// Who set it.
    pub set_by: Actor,
    /// Optional reasoning or context.
    pub rationale: String,
    /// What it rests on and what it informs.
    pub links: Vec<Link>,
    pub created_at: Timestamp,
    pub updated_at: Timestamp,
}

/// Whether some link in `links` is not well-formed.
pub open spec fn has_malformed_link(links: Seq<Link>) -> bool {
    exists|i: int| 0 <= i < links.len() && !(#[trigger] links[i]).is_well_formed()
}

/// Input for recording a directive; the id is assigned when absent.
#[derive(Clone, Debug, PartialEq, Eq)]
pub struct NewDirective {
    pub id: Option<DirectiveId>,
    pub kind: DirectiveKind,
    pub statement: String,
    pub set_by: Actor,
    pub rationale: String,
    pub links: Vec<Link>,
}

impl NewDirective {
    /// Which error, if any, recording this input gives: a blank statement
    /// first, then a malformed link.
    pub open spec fn rejection(self) -> Option<DecisionError> {
        if is_blank(self.statement@) {
            Some(DecisionError::EmptyStatement)
        } else if has_malformed_link(self.links@) {
            Some(DecisionError::EmptyLinkReference)
        } else {
            None
        }
    }

    /// The directive recorded from this input at `now`, under the id `id`.
    pub open spec fn recorded(self, id: DirectiveId, now: Timestamp) -> Directive {
        Directive {
            id,
            kind: self.kind,
            statement: self.statement,
            set_by: self.set_by,
            rationale: self.rationale,
            links: self.links,
            created_at: now,
            updated_at: now,
        }
    }

    /// Validates the input and materialises the stored directive. A blank
    /// statement is rejected, then a sensemaking link with a blank
    /// reference; otherwise every field is carried over, the id is the given
    /// one or a fresh one, and both record times are `now`.
    pub fn into_directive(self, now: Timestamp) -> (r: Result<Directive, DecisionError>)
        ensures
            self.rejection() matches Some(e) ==> r == Err::<Directive, DecisionError>(e),
            self.rejection() is None ==> r is Ok,
            r matches Ok(d) ==> d == self.recorded(d.id, now),
            r matches Ok(d) ==> d.kind == self.kind && d.statement == self.statement && d.set_by
                == self.set_by && d.rationale == self.rationale && d.links == self.links
                && d.created_at == now && d.updated_at == now,
            r matches Ok(d) ==> match self.id {
                Some(id) => d.id == id,
                None => is_v7(d.id.0),
            },
    {
        if str_is_blank(self.statement.as_str()) {
            return Err(DecisionError::EmptyStatement);
        }
        let mut i: usize = 0;
        while i < self.links.len()
            invariant
                i <= self.links@.len(),
                !is_blank(self.statement@),
                forall|j: int| 0 <= j < i ==> (#[trigger] self.links@[j]).is_well_formed(),
            decreases self.links@.len() - i,
        {
            match self.links[i].validate() {
                Ok(()) => {},
                Err(e) => {
                    assert(!self.links@[i as int].is_well_formed());
                    return Err(e);
                },
            }
            i = i + 1;
        }
        let id = match self.id {
            Some(id) => id,
            None => DirectiveId::new(),
        };
        Ok(
            Directive {
                id,
                kind: self.kind,
                statement: self.statement,
                set_by: self.set_by,
                rationale: self.rationale,
                links: self.links,
                created_at: now,
                updated_at: now,
            },
        )
    }
}

/// An input is recorded exactly when its statement is not blank and every
/// link is well-formed; a blank statement is reported first, then a
/// malformed link as an empty link reference.
pub proof fn lemma_directive_acceptance(nd: NewDirective)
    ensures
        nd.rejection() is None <==> (!is_blank(nd.statement@) && forall|i: int|
            0 <= i < nd.links@.len() ==> (#[trigger] nd.links@[i]).is_well_formed()),
        nd.rejection() == Some(DecisionError::EmptyStatement) <==> is_blank(nd.statement@),
        nd.rejection() == Some(DecisionError::EmptyLinkReference) <==> (!is_blank(nd.statement@)
            && exists|i: int| 0 <= i < nd.links@.len() && !(#[trigger] nd.links@[i]).is_well_formed()),
        nd.rejection() != Some(DecisionError::EmptyAlternative),
{
}

/// A recorded directive keeps the kind, statement, author, rationale and
/// links of its input, and is created and updated at the time of recording.
pub proof fn lemma_recorded_directive(nd: NewDirective, id: DirectiveId, now: Timestamp)
    ensures
        nd.recorded(id, now).id == id,
        nd.recorded(id, now).kind == nd.kind,
        nd.recorded(id, now).statement == nd.statement,
        nd.recorded(id, now).set_by == nd.set_by,
        nd.recorded(id, now).rationale == nd.rationale,
        nd.recorded(id, now).links == nd.links,
        nd.recorded(id, now).created_at == now,
        nd.recorded(id, now).updated_at == now,
{
}

} // verus!
