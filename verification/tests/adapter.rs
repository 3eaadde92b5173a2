use enma::actor::{Actor, ActorKind};
use enma::link::Link;
use enma::time::Timestamp;
use enma::{decision_from_sensing, is_decision_worthy};

#[test]
fn sensing_fields_are_preserved_in_decision() {
    let decision = decision_from_sensing(
        "Choose SQLite".into(),
        Some("sense_1".into()),
        Actor::user(),
        Timestamp::from_timestamp_secs(1).unwrap(),
    )
    .unwrap();
    assert_eq!(decision.statement, "Choose SQLite");
    assert_eq!(decision.rationale, "Promoted from sensing item sense_1");
    assert_eq!(
        decision.links,
        vec![Link::Sensemaking {
            reference: "sense_1".into()
        }]
    );
    assert!(is_decision_worthy("insight"));
    assert!(is_decision_worthy("hypothesis"));
    assert!(!is_decision_worthy("knowledge"));
}

#[test]
fn sensing_decision_without_source_has_no_links() {
    let now = Timestamp::from_unix(10, 20).unwrap();
    let d = decision_from_sensing("Ship it".into(), None, Actor::agent("bot"), now).unwrap();
    assert!(d.links.is_empty());
    assert_eq!(d.rationale, "");
    assert_eq!(d.decided_at, now);
    assert_eq!(d.created_at, now);
    assert_eq!(d.decided_by.kind, ActorKind::Agent);
    assert_eq!(d.decided_by.id, "bot");
    assert!(d.alternatives.is_empty() && d.consequences.is_empty() && d.revisit_when.is_empty());
}

#[test]
fn sensing_decision_with_blank_statement_is_rejected() {
    let r = decision_from_sensing(" \n".into(), Some("s".into()), Actor::user(), Timestamp::from_timestamp_secs(0).unwrap());
    assert_eq!(r.unwrap_err(), enma::DecisionError::EmptyStatement);
}

#[test]
fn worthiness_is_exact() {
    assert!(!is_decision_worthy("Insight"));
    assert!(!is_decision_worthy("insights"));
    assert!(!is_decision_worthy(""));
}

#[test]
fn actor_constructors() {
    let u = Actor::user();
    assert_eq!(u.kind, ActorKind::User);
    assert_eq!(u.id, "user");
    let a = Actor::agent("decisions-ai");
    assert_eq!(a.kind, ActorKind::Agent);
    assert_eq!(a.id, "decisions-ai");
}
