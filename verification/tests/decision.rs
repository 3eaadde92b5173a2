use enma::actor::Actor;
use enma::decision::{Alternative, DecisionError, NewDecision};
use enma::id::DecisionId;
use enma::link::Link;
use enma::time::Timestamp;

fn now() -> Timestamp {
    let t = chrono::Utc::now();
    Timestamp::from_unix(t.timestamp(), t.timestamp_subsec_nanos()).unwrap()
}

fn sample() -> NewDecision {
    NewDecision {
        id: None,
        statement: "Use Postgres for the primary store".into(),
        decided_by: Actor::user(),
        decided_at: None,
        rationale: "Relational integrity matters more than write latency here".into(),
        alternatives: vec![Alternative {
            option: "DynamoDB".into(),
            rejected_because: "No multi-row transactions".into(),
        }],
        consequences: vec!["Operate a Postgres instance".into()],
        revisit_when: "if write throughput exceeds 50k/s".into(),
        links: vec![Link::Sensemaking {
            reference: "insight-throughput".into(),
        }],
    }
}

#[test]
fn materialises_with_all_charter_fields() {
    let now = now();
    let d = sample().into_decision(now).expect("valid");
    assert!(d.id.to_string().starts_with("dec_"));
    assert_eq!(d.decided_at, now, "decided_at defaults to now when absent");
    assert_eq!(d.created_at, now);
    assert_eq!(d.alternatives.len(), 1);
    assert_eq!(d.consequences.len(), 1);
    assert!(!d.revisit_when.is_empty());
    assert_eq!(d.links.len(), 1);
}

#[test]
fn empty_statement_is_rejected() {
    let mut n = sample();
    n.statement = "   ".into();
    assert_eq!(
        n.into_decision(now()).unwrap_err(),
        DecisionError::EmptyStatement
    );
}

#[test]
fn empty_alternative_option_is_rejected() {
    let mut n = sample();
    n.alternatives = vec![Alternative {
        option: "".into(),
        rejected_because: "x".into(),
    }];
    assert_eq!(
        n.into_decision(now()).unwrap_err(),
        DecisionError::EmptyAlternative
    );
}

#[test]
fn explicit_decided_at_is_preserved() {
    let t = chrono::Utc::now() - chrono::Duration::days(1);
    let earlier = Timestamp::from_unix(t.timestamp(), t.timestamp_subsec_nanos()).unwrap();
    let mut n = sample();
    n.decided_at = Some(earlier);
    let d = n.into_decision(now()).unwrap();
    assert_eq!(d.decided_at, earlier);
}

#[test]
fn record_keeps_every_field_and_the_given_id() {
    let now = Timestamp::from_timestamp_secs(1_700_000_000).unwrap();
    let mut n = sample();
    let id = DecisionId::from_u128(0x0123_4567_89ab_cdef_0123_4567_89ab_cdef);
    n.id = Some(id);
    let expected = n.clone();
    let d = n.into_decision(now).unwrap();
    assert_eq!(d.id, id);
    assert_eq!(d.statement, expected.statement);
    assert_eq!(d.decided_by, expected.decided_by);
    assert_eq!(d.rationale, expected.rationale);
    assert_eq!(d.alternatives, expected.alternatives);
    assert_eq!(d.consequences, expected.consequences);
    assert_eq!(d.revisit_when, expected.revisit_when);
    assert_eq!(d.links, expected.links);
    assert_eq!(d.created_at, now);
    assert_eq!(d.updated_at, now);
}

#[test]
fn blank_statement_wins_over_blank_alternative() {
    let mut n = sample();
    n.statement = "\t\n".into();
    n.alternatives = vec![Alternative {
        option: " ".into(),
        rejected_because: String::new(),
    }];
    assert_eq!(
        n.into_decision(now()).unwrap_err(),
        DecisionError::EmptyStatement
    );
}

#[test]
fn later_blank_alternative_is_found() {
    let mut n = sample();
    n.alternatives.push(Alternative {
        option: "\u{3000}\u{a0}".into(),
        rejected_because: String::new(),
    });
    assert_eq!(
        n.into_decision(now()).unwrap_err(),
        DecisionError::EmptyAlternative
    );
}

#[test]
fn decision_does_not_check_its_links() {
    let mut n = sample();
    n.links = vec![Link::Sensemaking { reference: " ".into() }];
    assert!(n.into_decision(now()).is_ok());
}

#[test]
fn fresh_decision_id_is_version_seven() {
    let d = sample().into_decision(now()).unwrap();
    let v = d.id.as_u128();
    assert_eq!((v >> 76) & 0xf, 7);
    assert_eq!((v >> 62) & 0x3, 2);
}

#[test]
fn decision_error_messages() {
    assert_eq!(
        DecisionError::EmptyStatement.message(),
        "decision statement must not be empty"
    );
    assert_eq!(
        DecisionError::EmptyAlternative.to_string(),
        "alternative option must not be empty"
    );
    assert_eq!(
        DecisionError::EmptyLinkReference.message(),
        "link reference must not be empty"
    );
}
