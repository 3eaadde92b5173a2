use enma::id::{DecisionId, DirectiveId, PlanId, ProjectId, TaskId};

#[test]
fn decision_id_display_round_trips_through_from_str() {
    let id = DecisionId::new();
    let shown = id.to_string();
    assert!(shown.starts_with("dec_"), "got {shown}");
    let back: DecisionId = shown.parse().unwrap();
    assert_eq!(id, back);
}

#[test]
fn directive_id_display_round_trips_through_from_str() {
    let id = DirectiveId::new();
    let shown = id.to_string();
    assert!(shown.starts_with("dir_"), "got {shown}");
    let back: DirectiveId = shown.parse().unwrap();
    assert_eq!(id, back);
}

#[test]
fn id_plan_id_display_and_parse_roundtrip() {
    let id = PlanId::new();
    let s = id.to_string();
    assert!(s.starts_with("pln_"), "got {s}");
    let back: PlanId = s.parse().unwrap();
    assert_eq!(id, back);
}

#[test]
fn id_project_id_display_and_parse_roundtrip() {
    let id = ProjectId::new();
    let s = id.to_string();
    assert!(s.starts_with("prj_"), "got {s}");
    let back: ProjectId = s.parse().unwrap();
    assert_eq!(id, back);
}

#[test]
fn id_task_id_display_and_parse_roundtrip() {
    let id = TaskId::new();
    let s = id.to_string();
    assert!(s.starts_with("tsk_"), "got {s}");
    let back: TaskId = s.parse().unwrap();
    assert_eq!(id, back);
}

#[test]
fn shared_ids_plan_id_display_and_parse_roundtrip() {
    let id = PlanId::new();
    let s = id.to_string();
    assert!(s.starts_with("pln_"), "got {s}");
    let back: PlanId = s.parse().unwrap();
    assert_eq!(id, back);
}

#[test]
fn shared_ids_project_id_display_and_parse_roundtrip() {
    let id = ProjectId::new();
    let s = id.to_string();
    assert!(s.starts_with("prj_"), "got {s}");
    let back: ProjectId = s.parse().unwrap();
    assert_eq!(id, back);
}

#[test]
fn shared_ids_task_id_display_and_parse_roundtrip() {
    let id = TaskId::new();
    let s = id.to_string();
    assert!(s.starts_with("tsk_"), "got {s}");
    let back: TaskId = s.parse().unwrap();
    assert_eq!(id, back);
}

#[test]
fn id_text_is_prefix_and_hyphenated_uuid() {
    let id = DecisionId::from_u128(0xa1a2a3a4b1b2c1c2d1d2d3d4d5d6d7d8);
    assert_eq!(id.to_string(), "dec_a1a2a3a4-b1b2-c1c2-d1d2-d3d4d5d6d7d8");
    let t = TaskId::from_u128(0x0000000000000000000000000000000f);
    assert_eq!(t.to_string(), "tsk_00000000-0000-0000-0000-00000000000f");
}

#[test]
fn bare_uuid_parses_without_prefix() {
    let back = PlanId::parse_str("a1a2a3a4-b1b2-c1c2-d1d2-d3d4d5d6d7d8").unwrap();
    assert_eq!(back.as_u128(), 0xa1a2a3a4b1b2c1c2d1d2d3d4d5d6d7d8);
}

#[test]
fn other_kinds_prefix_is_not_stripped() {
    assert!(DecisionId::parse_str("dir_a1a2a3a4-b1b2-c1c2-d1d2-d3d4d5d6d7d8").is_err());
    assert!(ProjectId::parse_str("prj_not-a-uuid").is_err());
    assert!(ProjectId::parse_str("").is_err());
}

#[test]
fn new_ids_are_version_seven_and_distinct() {
    let a = DirectiveId::new();
    let b = DirectiveId::default();
    assert_ne!(a, b);
    for v in [a.as_u128(), b.as_u128()] {
        assert_eq!((v >> 76) & 0xf, 7);
        assert_eq!((v >> 62) & 0x3, 2);
    }
}
