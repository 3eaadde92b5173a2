use enma::mcp::{
    decide_route, default_limit, route_method, tool_method, tool_schemas, DecideRoute, DispatchFailure,
    McpMethod,
};

#[test]
fn methods_are_routed() {
    assert_eq!(route_method("enma.decide"), Some(McpMethod::Decide));
    assert_eq!(route_method("enma.list"), Some(McpMethod::List));
    assert_eq!(route_method("enma.list_decisions"), Some(McpMethod::List));
    assert_eq!(route_method("enma.get"), Some(McpMethod::Get));
    assert_eq!(route_method("enma.get_decision"), Some(McpMethod::Get));
    assert_eq!(route_method("enma.nope"), None);
    assert_eq!(route_method("enma_decide"), None);
}

#[test]
fn every_listed_tool_is_dispatchable() {
    let tools = tool_schemas();
    assert_eq!(tools.len(), 5);
    for tool in tools {
        let name = tool.name;
        let method = tool_method(name);
        assert_eq!(method, name.replacen('_', ".", 1));
        assert!(route_method(&method).is_some(), "{method} must be real");
    }
}

#[test]
fn tool_method_replaces_only_first_underscore() {
    assert_eq!(tool_method("enma_get_decision"), "enma.get_decision");
    assert_eq!(tool_method("plain"), "plain");
    assert_eq!(tool_method("_x"), ".x");
}

#[test]
fn decide_routes() {
    assert_eq!(decide_route(true, true), Ok(DecideRoute::WithAi));
    assert_eq!(decide_route(true, false), Err(DispatchFailure::AiNotConfigured));
    assert_eq!(decide_route(false, false), Ok(DecideRoute::FromSensing));
    assert_eq!(decide_route(false, true), Ok(DecideRoute::FromSensing));
}

#[test]
fn failures_have_status_and_code() {
    let cases = [
        (DispatchFailure::InvalidParams, 400, "invalid_params"),
        (DispatchFailure::AiNotConfigured, 503, "ai_not_configured"),
        (DispatchFailure::AiError, 502, "ai_error"),
        (DispatchFailure::StorageError, 500, "storage_error"),
        (DispatchFailure::NotFound, 404, "not_found"),
        (DispatchFailure::UnknownMethod, 400, "unknown_method"),
    ];
    for (f, status, code) in cases {
        assert_eq!(f.status(), status);
        assert_eq!(f.code(), code);
    }
    assert_eq!(default_limit(), 100);
}

use enma::mcp::{decide_start, decide_step, DecideAction, DecideState};

fn run(ai_requested: bool, provider: bool, outcomes: &[bool]) -> Vec<DecideAction> {
    let mut state = decide_start(ai_requested, provider);
    let mut actions = Vec::new();
    for &ok in outcomes {
        if state == DecideState::Finished {
            break;
        }
        let (next, action) = decide_step(state, ok);
        state = next;
        actions.push(action);
    }
    actions
}

#[test]
fn decide_without_model_stores_then_replies() {
    assert_eq!(
        run(false, false, &[true, true, true]),
        vec![
            DecideAction::Build(DecideRoute::FromSensing),
            DecideAction::Store,
            DecideAction::Reply { with_meta: false }
        ]
    );
}

#[test]
fn decide_with_model_replies_with_meta() {
    assert_eq!(
        run(true, true, &[true, true, true]),
        vec![
            DecideAction::Build(DecideRoute::WithAi),
            DecideAction::Store,
            DecideAction::Reply { with_meta: true }
        ]
    );
}

#[test]
fn decide_failures_by_step() {
    assert_eq!(run(false, true, &[false]), vec![DecideAction::Fail(DispatchFailure::InvalidParams)]);
    assert_eq!(run(true, false, &[true]), vec![DecideAction::Fail(DispatchFailure::AiNotConfigured)]);
    assert_eq!(
        run(true, true, &[true, false]),
        vec![DecideAction::Build(DecideRoute::WithAi), DecideAction::Fail(DispatchFailure::AiError)]
    );
    assert_eq!(
        run(false, false, &[true, false]),
        vec![DecideAction::Build(DecideRoute::FromSensing), DecideAction::Fail(DispatchFailure::InvalidParams)]
    );
    assert_eq!(
        run(false, false, &[true, true, false]),
        vec![
            DecideAction::Build(DecideRoute::FromSensing),
            DecideAction::Store,
            DecideAction::Fail(DispatchFailure::StorageError)
        ]
    );
}

use enma::tool::ParamType;

#[test]
fn tool_schemas_describe_parameters() {
    let tools = tool_schemas();
    let names: Vec<&str> = tools.iter().map(|t| t.name).collect();
    assert_eq!(names, vec!["enma_decide", "enma_list", "enma_list_decisions", "enma_get", "enma_get_decision"]);
    let decide = &tools[0];
    assert_eq!(
        decide.description,
        "Build a typed Decision from a decision statement, optionally linked to an upstream sensing item."
    );
    let required: Vec<&str> = decide.params.iter().filter(|p| p.required).map(|p| p.name).collect();
    assert_eq!(required, vec!["statement"]);
    assert_eq!(decide.params.len(), 3);
    assert_eq!(decide.params[2].name, "decided_by");
    assert_eq!(decide.params[2].kind, ParamType::Object);
    for t in &tools[1..3] {
        assert_eq!(t.description, "List persisted Decisions.");
        assert_eq!(t.params.len(), 1);
        assert_eq!(t.params[0].name, "limit");
        assert_eq!(t.params[0].kind, ParamType::Integer);
        assert!(!t.params[0].required);
        assert_eq!(t.params[0].minimum, Some(1));
    }
    for t in &tools[3..5] {
        assert_eq!(t.description, "Get a persisted Decision by id.");
        assert_eq!(t.params.len(), 1);
        assert_eq!(t.params[0].name, "id");
        assert_eq!(t.params[0].kind, ParamType::String);
        assert!(t.params[0].required);
    }
    assert!(tools.iter().all(|t| !t.closed));
}
