use enma::decision::DecisionError;
use enma::id::{PlanId, ProjectId, TaskId};
use enma::link::Link;

#[test]
fn blank_sensemaking_reference_is_rejected() {
    let l = Link::Sensemaking {
        reference: "   ".into(),
    };
    assert_eq!(l.validate().unwrap_err(), DecisionError::EmptyLinkReference);

    let empty = Link::Sensemaking {
        reference: "".into(),
    };
    assert_eq!(
        empty.validate().unwrap_err(),
        DecisionError::EmptyLinkReference
    );
}

#[test]
fn non_blank_sensemaking_reference_is_accepted() {
    let l = Link::Sensemaking {
        reference: "insight-42".into(),
    };
    assert!(l.validate().is_ok());
}

#[test]
fn id_carrying_links_are_always_valid() {
    assert!(Link::Plan { id: PlanId::new() }.validate().is_ok());
    assert!(Link::Project {
        id: ProjectId::new()
    }
    .validate()
    .is_ok());
    assert!(Link::Task { id: TaskId::new() }.validate().is_ok());
}

#[test]
fn link_kinds_are_stable() {
    assert_eq!(Link::Sensemaking { reference: "x".into() }.kind(), "sensemaking");
    assert_eq!(Link::Plan { id: PlanId::from_u128(1) }.kind(), "plan");
    assert_eq!(Link::Project { id: ProjectId::from_u128(1) }.kind(), "project");
    assert_eq!(Link::Task { id: TaskId::from_u128(1) }.kind(), "task");
}

#[test]
fn unicode_white_space_reference_is_blank() {
    for r in ["\u{85}", "\u{1680}", "\u{2000}\u{200a}", "\u{2028}\u{2029}", "\u{202f}\u{205f}", "\r\x0b\x0c"] {
        let l = Link::Sensemaking { reference: r.into() };
        assert_eq!(l.validate(), Err(DecisionError::EmptyLinkReference), "{r:?}");
    }
    for r in ["\u{200b}", "_", "a ", "\u{feff}"] {
        let l = Link::Sensemaking { reference: r.into() };
        assert!(l.validate().is_ok(), "{r:?}");
    }
}

#[test]
fn blankness_agrees_with_trim() {
    for r in [" \t", "x", " x ", "\u{3000}", "\u{180e}", "", "\u{a0}y"] {
        let l = Link::Sensemaking { reference: r.into() };
        assert_eq!(l.validate().is_err(), r.trim().is_empty(), "{r:?}");
    }
}
