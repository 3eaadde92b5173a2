//! Who authored a decision or directive: a human or an automated agent,
//! named by an opaque string id.

use vstd::prelude::*;

verus! {

/// Discriminates between a human and an automated agent.
#[derive(Clone, Copy, Debug, PartialEq, Eq, Structural, Hash)]
pub enum ActorKind {
    User,
    Agent,
}

/// Who authored a [`crate::decision::Decision`] or
/// [`crate::directive::Directive`].
#[derive(Clone, Debug, PartialEq, Eq)]
pub struct Actor {
    pub kind: ActorKind,
    /// Opaque identifier: a user id, an agent slug, or a service name.
    pub id: String,
}

impl Actor {
    /// The anonymous human actor, with id `user`.
    pub fn user() -> (a: Self)
        ensures
            a.kind == ActorKind::User,
            a.id@ == "user"@,
    {
        Actor { kind: ActorKind::User, id: String::from_str("user") }
    }

    /// A named agent actor.
    pub fn agent(id: &str) -> (a: Self)
        ensures
            a.kind == ActorKind::Agent,
            a.id@ == id@,
    {
        Actor { kind: ActorKind::Agent, id: String::from_str(id) }
    }
}

} // verus!
