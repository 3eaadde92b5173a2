//! Cross-layer links. A decision is grounded in what sensemaking surfaced and
//! informs the plans that follow; a link stores only a typed reference to
//! that neighbour, never a copy of it.

use vstd::prelude::*;

use crate::decision::DecisionError;
use crate::id::{PlanId, ProjectId, TaskId};
use crate::text::{is_blank, str_is_blank};

verus! {

/// Where a decision (or directive) points. Sensemaking is what it is
/// grounded in; plans, projects and tasks are what it informs.
#[derive(Clone, Debug, PartialEq, Eq)]
#[allow(inconsistent_fields)]
pub enum Link {
    /// Grounded in a sensemaking output, referenced by an opaque string that
    /// the sensemaking layer resolves.
    Sensemaking { reference: String },
    /// Informs, or is realised by, a plan.
    Plan { id: PlanId },
    /// Scopes or informs a whole project.
    Project { id: ProjectId },
    /// Informs a specific task.
    Task { id: TaskId },
}

impl Link {
    /// The stable discriminant of the link (its wire tag).
    pub open spec fn kind_name(self) -> Seq<char> {
        match self {
            Link::Sensemaking { .. } => "sensemaking"@,
            Link::Plan { .. } => "plan"@,
            Link::Project { .. } => "project"@,
            Link::Task { .. } => "task"@,
        }
    }

    /// A link is well-formed unless it is a sensemaking link with a blank
    /// reference, which would point at nothing.
    pub open spec fn is_well_formed(self) -> bool {
        match self {
            Link::Sensemaking { reference } => !is_blank(reference@),
            _ => true,
        }
    }

    /// The stable discriminant of the link (its wire tag).
    pub fn kind(&self) -> (s: &'static str)
        ensures
            s@ == self.kind_name(),
    {
        match self {
            Link::Sensemaking { .. } => "sensemaking",
            Link::Plan { .. } => "plan",
            Link::Project { .. } => "project",
            Link::Task { .. } => "task",
        }
    }

    /// Rejects a sensemaking link whose reference is blank; every other link
    /// is accepted.
    pub fn validate(&self) -> (r: Result<(), DecisionError>)
        ensures
            r is Ok <==> self.is_well_formed(),
            r is Err ==> r == Err::<(), DecisionError>(DecisionError::EmptyLinkReference),
    {
        match self {
            Link::Sensemaking { reference } => {
                if str_is_blank(reference.as_str()) {
                    Err(DecisionError::EmptyLinkReference)
                } else {
                    Ok(())
                }
            },
            Link::Plan { .. } | Link::Project { .. } | Link::Task { .. } => Ok(()),
        }
    }
}

/// The wire tag of each kind of link, and which links are well-formed:
/// every plan, project and task link; a sensemaking link exactly when its
/// reference is not blank.
pub proof fn lemma_link_kinds(l: Link)
    ensures
        l is Sensemaking ==> l.kind_name() == "sensemaking"@,
        l is Plan ==> l.kind_name() == "plan"@,
        l is Project ==> l.kind_name() == "project"@,
        l is Task ==> l.kind_name() == "task"@,
        l matches Link::Sensemaking { reference } ==> (l.is_well_formed() <==> !is_blank(reference@)),
        !(l is Sensemaking) ==> l.is_well_formed(),
{
}

} // verus!
