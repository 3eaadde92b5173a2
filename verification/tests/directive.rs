use enma::actor::Actor;
use enma::decision::DecisionError;
use enma::directive::{DirectiveKind, NewDirective};
use enma::id::{DirectiveId, PlanId};
use enma::link::Link;
use enma::time::Timestamp;

fn now() -> Timestamp {
    let t = chrono::Utc::now();
    Timestamp::from_unix(t.timestamp(), t.timestamp_subsec_nanos()).unwrap()
}

#[test]
fn kind_round_trips_via_string() {
    for k in [
        DirectiveKind::Goal,
        DirectiveKind::NonGoal,
        DirectiveKind::Constraint,
        DirectiveKind::Assumption,
        DirectiveKind::Principle,
        DirectiveKind::SuccessCriteria,
    ] {
        assert_eq!(DirectiveKind::parse_str(k.as_str()), Some(k));
    }
    assert_eq!(DirectiveKind::parse_str("nope"), None);
}

#[test]
fn kind_names_are_snake_case() {
    assert_eq!(DirectiveKind::NonGoal.as_str(), "non_goal");
    assert_eq!(DirectiveKind::SuccessCriteria.as_str(), "success_criteria");
    assert_eq!(DirectiveKind::parse_str("Goal"), None);
    assert_eq!(DirectiveKind::parse_str("goal "), None);
    assert_eq!(DirectiveKind::parse_str(""), None);
}

#[test]
fn materialises_and_rejects_empty_statement() {
    let now = now();
    let ok = NewDirective {
        id: None,
        kind: DirectiveKind::Goal,
        statement: "Cut onboarding to under 5 minutes".into(),
        set_by: Actor::user(),
        rationale: String::new(),
        links: vec![],
    }
    .into_directive(now)
    .expect("valid");
    assert!(ok.id.to_string().starts_with("dir_"));
    assert_eq!(ok.kind, DirectiveKind::Goal);

    let bad = NewDirective {
        id: None,
        kind: DirectiveKind::NonGoal,
        statement: "  ".into(),
        set_by: Actor::user(),
        rationale: String::new(),
        links: vec![],
    }
    .into_directive(now);
    assert!(bad.is_err());
}

#[test]
fn blank_sensemaking_link_reference_is_rejected() {
    let n = NewDirective {
        id: None,
        kind: DirectiveKind::Constraint,
        statement: "Must run on-prem".into(),
        set_by: Actor::user(),
        rationale: String::new(),
        links: vec![Link::Sensemaking {
            reference: "  ".into(),
        }],
    };
    assert_eq!(
        n.into_directive(now()).unwrap_err(),
        DecisionError::EmptyLinkReference
    );
}

#[test]
fn directive_keeps_given_id_and_fields() {
    let now = Timestamp::from_unix(42, 7).unwrap();
    let id = DirectiveId::from_u128(5);
    let d = NewDirective {
        id: Some(id),
        kind: DirectiveKind::Principle,
        statement: "Prefer boring technology".into(),
        set_by: Actor::agent("planner"),
        rationale: "fewer surprises".into(),
        links: vec![
            Link::Plan { id: PlanId::from_u128(9) },
            Link::Sensemaking { reference: "s".into() },
        ],
    }
    .into_directive(now)
    .unwrap();
    assert_eq!(d.id, id);
    assert_eq!(d.kind, DirectiveKind::Principle);
    assert_eq!(d.statement, "Prefer boring technology");
    assert_eq!(d.set_by, Actor::agent("planner"));
    assert_eq!(d.rationale, "fewer surprises");
    assert_eq!(d.links.len(), 2);
    assert_eq!(d.created_at, now);
    assert_eq!(d.updated_at, now);
}

#[test]
fn blank_statement_is_reported_before_bad_link() {
    let n = NewDirective {
        id: None,
        kind: DirectiveKind::Goal,
        statement: String::new(),
        set_by: Actor::user(),
        rationale: String::new(),
        links: vec![Link::Sensemaking { reference: String::new() }],
    };
    assert_eq!(
        n.into_directive(now()).unwrap_err(),
        DecisionError::EmptyStatement
    );
}
