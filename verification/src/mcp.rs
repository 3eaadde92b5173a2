//! The decisions made by the MCP surface of the decisions service: which
//! method a request names, which tools it lists, how a decide request is
//! served, and how each failure is answered. Reading requests, talking to
//! the model and to the store, and writing JSON happen around these.

use vstd::prelude::*;

use crate::text::str_eq;
use crate::tool::{param, params_view, ParamType, ToolSchema};

verus! {

/// The methods the MCP surface serves.
#[derive(Clone, Copy, Debug, PartialEq, Eq, Structural)]
pub enum McpMethod {
    /// `enma.decide`: build and store a decision.
    Decide,
    /// `enma.list` or `enma.list_decisions`: list stored decisions.
    List,
    /// `enma.get` or `enma.get_decision`: fetch one stored decision.
    Get,
}

/// The method a request's method name selects, if any.
pub open spec fn method_named(s: Seq<char>) -> Option<McpMethod> {
    if s == "enma.decide"@ {
        Some(McpMethod::Decide)
    } else if s == "enma.list"@ || s == "enma.list_decisions"@ {
        Some(McpMethod::List)
    } else if s == "enma.get"@ || s == "enma.get_decision"@ {
        Some(McpMethod::Get)
    } else {
        None
    }
}

/// Routes a method name; an unknown name gives `None`.
pub fn route_method(method: &str) -> (r: Option<McpMethod>)
    ensures
        r == method_named(method@),
{
    if str_eq(method, "enma.decide") {
        Some(McpMethod::Decide)
    } else if str_eq(method, "enma.list") || str_eq(method, "enma.list_decisions") {
        Some(McpMethod::List)
    } else if str_eq(method, "enma.get") || str_eq(method, "enma.get_decision") {
        Some(McpMethod::Get)
    } else {
        None
    }
}

/// The names under which the tools are listed, one per method served.
pub open spec fn tool_name_list() -> Seq<Seq<char>> {
    seq!["enma_decide"@, "enma_list"@, "enma_list_decisions"@, "enma_get"@, "enma_get_decision"@]
}

/// What the tool at position `i` of the list is for.
pub open spec fn tool_description(i: int) -> Seq<char> {
    if i == 0 {
        "Build a typed Decision from a decision statement, optionally linked to an upstream sensing item."@
    } else if i == 1 || i == 2 {
        "List persisted Decisions."@
    } else {
        "Get a persisted Decision by id."@
    }
}

/// The parameters of the tool at position `i` of the list: decide takes a
/// required string `statement`, an optional string `source_ref` and an
/// optional object `decided_by`; the list tools take an optional integer
/// `limit` of at least 1; the get tools take a required string `id`.
pub open spec fn tool_params(i: int) -> Seq<(Seq<char>, ParamType, bool, Option<i64>)> {
    if i == 0 {
        seq![
            ("statement"@, ParamType::String, true, None),
            ("source_ref"@, ParamType::String, false, None),
            ("decided_by"@, ParamType::Object, false, None),
        ]
    } else if i == 1 || i == 2 {
        seq![("limit"@, ParamType::Integer, false, Some(1i64))]
    } else {
        seq![("id"@, ParamType::String, true, None)]
    }
}

/// The tools the MCP surface lists, one per method served, in the order of
/// [`tool_name_list`], each with its description and parameters; none
/// refuses other parameters.
pub fn tool_schemas() -> (r: Vec<ToolSchema>)
    ensures
        r@.len() == tool_name_list().len(),
        forall|i: int|
            0 <= i < r@.len() ==> {
                &&& (#[trigger] r@[i]).name@ == tool_name_list()[i]
                &&& r@[i].description@ == tool_description(i)
                &&& params_view(r@[i].params@) == tool_params(i)
                &&& !r@[i].closed
            },
{
    let decide_params = vec![
        param("statement", ParamType::String, true, None),
        param("source_ref", ParamType::String, false, None),
        param("decided_by", ParamType::Object, false, None),
    ];
    let mut r: Vec<ToolSchema> = Vec::new();
    r.push(
        ToolSchema {
            name: "enma_decide",
            description: "Build a typed Decision from a decision statement, optionally linked to an upstream sensing item.",
            params: decide_params,
            closed: false,
        },
    );
    r.push(
        ToolSchema {
            name: "enma_list",
            description: "List persisted Decisions.",
            params: vec![param("limit", ParamType::Integer, false, Some(1))],
            closed: false,
        },
    );
    r.push(
        ToolSchema {
            name: "enma_list_decisions",
            description: "List persisted Decisions.",
            params: vec![param("limit", ParamType::Integer, false, Some(1))],
            closed: false,
        },
    );
    r.push(
        ToolSchema {
            name: "enma_get",
            description: "Get a persisted Decision by id.",
            params: vec![param("id", ParamType::String, true, None)],
            closed: false,
        },
    );
    r.push(
        ToolSchema {
            name: "enma_get_decision",
            description: "Get a persisted Decision by id.",
            params: vec![param("id", ParamType::String, true, None)],
            closed: false,
        },
    );
    proof {
        assert forall|i: int| 0 <= i < r@.len() implies params_view(r@[i].params@) == tool_params(i) by {
            assert(params_view(r@[i].params@) =~= tool_params(i));
        }
    }
    r
}

/// `s` with its first underscore replaced by a dot.
pub open spec fn dotted(s: Seq<char>) -> Seq<char>
    decreases s.len(),
{
    if s.len() == 0 {
        s
    } else if s[0] == '_' {
        seq!['.'] + s.drop_first()
    } else {
        seq![s[0]] + dotted(s.drop_first())
    }
}

proof fn lemma_dotted_step(s: Seq<char>, i: int)
    requires
        0 <= i <= s.len(),
        forall|j: int| 0 <= j < i ==> s[j] != '_',
    ensures
        dotted(s) == s.subrange(0, i) + dotted(s.skip(i)),
    decreases i,
{
    if i > 0 {
        lemma_dotted_step(s, i - 1);
        let t = s.skip(i - 1);
        assert(t.drop_first() =~= s.skip(i));
        assert(s.subrange(0, i - 1) + seq![t[0]] =~= s.subrange(0, i));
    } else {
        assert(s.skip(0) =~= s);
    }
}

/// The method name a tool is called by: its listed name with the first
/// underscore turned into a dot (`enma_get_decision` is `enma.get_decision`).
pub fn tool_method(name: &str) -> (s: String)
    ensures
        s@ == dotted(name@),
{
    let n = name.unicode_len();
    let mut i: usize = 0;
    while i < n
        invariant
            n == name@.len(),
            i <= n,
            forall|j: int| 0 <= j < i ==> name@[j] != '_',
        ensures
            i <= n,
            forall|j: int| 0 <= j < i ==> name@[j] != '_',
            i < n ==> name@[i as int] == '_',
        decreases n - i,
    {
        if name.get_char(i) == '_' {
            break;
        }
        i = i + 1;
    }
    proof {
        lemma_dotted_step(name@, i as int);
    }
    let mut s = String::from_str(name.substring_char(0, i));
    if i < n {
        s.append(".");
        s.append(name.substring_char(i + 1, n));
        proof {
            reveal_strlit(".");
            let rest = name@.skip(i as int);
            assert(rest[0] == '_');
            assert(dotted(rest) == seq!['.'] + rest.drop_first());
            assert(rest.drop_first() =~= name@.subrange(i + 1, n as int));
        }
    } else {
        assert(name@.skip(i as int) =~= Seq::<char>::empty());
    }
    s
}

/// Every listed tool is called by a method name that is routed.
pub proof fn lemma_tools_are_routed(i: int)
    requires
        0 <= i < tool_name_list().len(),
    ensures
        method_named(dotted(tool_name_list()[i])) is Some,
{
    reveal_strlit("enma_decide");
    reveal_strlit("enma_list");
    reveal_strlit("enma_list_decisions");
    reveal_strlit("enma_get");
    reveal_strlit("enma_get_decision");
    reveal_strlit("enma.decide");
    reveal_strlit("enma.list");
    reveal_strlit("enma.list_decisions");
    reveal_strlit("enma.get");
    reveal_strlit("enma.get_decision");
    let name = tool_name_list()[i];
    assert(name[4] == '_');
    lemma_dotted_step(name, 4);
    let rest = name.skip(4);
    assert(rest[0] == '_');
    let d = dotted(name);
    assert(d =~= name.subrange(0, 4) + (seq!['.'] + rest.drop_first()));
    if i == 0 {
        assert(d =~= "enma.decide"@);
    } else if i == 1 {
        assert(d =~= "enma.list"@);
    } else if i == 2 {
        assert(d =~= "enma.list_decisions"@);
    } else if i == 3 {
        assert(d =~= "enma.get"@);
    } else {
        assert(d =~= "enma.get_decision"@);
    }
}

/// How a decide request is served.
#[derive(Clone, Copy, Debug, PartialEq, Eq, Structural)]
pub enum DecideRoute {
    /// The model formulates the decision from the statement as sensing
    /// material.
    WithAi,
    /// The statement is taken as the decision, as promoted from sensing.
    FromSensing,
}

/// The ways a request can fail, each answered with its own status and code.
#[derive(Clone, Copy, Debug, PartialEq, Eq, Structural)]
pub enum DispatchFailure {
    /// The parameters do not fit the method, or the decision is malformed.
    InvalidParams,
    /// The request asked for the model but no provider is configured.
    AiNotConfigured,
    /// The model failed or gave an unusable answer.
    AiError,
    /// The store failed.
    StorageError,
    /// No stored decision has the requested id.
    NotFound,
    /// The method name is not served.
    UnknownMethod,
}

/// Chooses how a decide request is served: when it asks for the model, the
/// model is used if a provider is there and the request fails otherwise;
/// when it does not, the statement is promoted directly.
pub fn decide_route(ai_requested: bool, provider_available: bool) -> (r: Result<
    DecideRoute,
    DispatchFailure,
>)
    ensures
        ai_requested && provider_available ==> r == Ok::<DecideRoute, DispatchFailure>(DecideRoute::WithAi),
        ai_requested && !provider_available ==> r == Err::<DecideRoute, DispatchFailure>(DispatchFailure::AiNotConfigured),
        !ai_requested ==> r == Ok::<DecideRoute, DispatchFailure>(DecideRoute::FromSensing),
{
    if ai_requested {
        if provider_available {
            Ok(DecideRoute::WithAi)
        } else {
            Err(DispatchFailure::AiNotConfigured)
        }
    } else {
        Ok(DecideRoute::FromSensing)
    }
}

/// Where a decide request stands between the steps that serve it: the
/// parameters are read first, then the decision is built on the chosen
/// route, then it is stored; only then is it answered.
#[derive(Clone, Copy, Debug, PartialEq, Eq, Structural)]
pub enum DecideState {
    /// Waiting for the outcome of reading the parameters; the request's
    /// wish for the model and whether a provider is there are known.
    AwaitParams { ai_requested: bool, provider_available: bool },
    /// Waiting for the outcome of building the decision on `route`.
    AwaitDecision { route: DecideRoute },
    /// Waiting for the outcome of storing the decision built on `route`.
    AwaitStore { route: DecideRoute },
    /// The request has been answered.
    Finished,
}

/// What serving a decide request does next.
#[derive(Clone, Copy, Debug, PartialEq, Eq, Structural)]
pub enum DecideAction {
    /// Build the decision on the given route.
    Build(DecideRoute),
    /// Store the decision that was built.
    Store,
    /// Answer with the stored decision; `with_meta` when the model made it
    /// (the answer then reports the model and its usage).
    Reply { with_meta: bool },
    /// Answer with the failure.
    Fail(DispatchFailure),
}

/// The failure a build on `route` is answered with.
pub open spec fn build_failure(route: DecideRoute) -> DispatchFailure {
    match route {
        DecideRoute::WithAi => DispatchFailure::AiError,
        DecideRoute::FromSensing => DispatchFailure::InvalidParams,
    }
}

/// The next state and action of a decide request in `state`, once the step
/// it waited for has succeeded (`ok`) or failed.
pub open spec fn decide_next(state: DecideState, ok: bool) -> (DecideState, DecideAction) {
    match state {
        DecideState::AwaitParams { ai_requested, provider_available } => {
            if !ok {
                (DecideState::Finished, DecideAction::Fail(DispatchFailure::InvalidParams))
            } else if ai_requested && !provider_available {
                (DecideState::Finished, DecideAction::Fail(DispatchFailure::AiNotConfigured))
            } else {
                let route = if ai_requested {
                    DecideRoute::WithAi
                } else {
                    DecideRoute::FromSensing
                };
                (DecideState::AwaitDecision { route }, DecideAction::Build(route))
            }
        },
        DecideState::AwaitDecision { route } => {
            if ok {
                (DecideState::AwaitStore { route }, DecideAction::Store)
            } else {
                (DecideState::Finished, DecideAction::Fail(build_failure(route)))
            }
        },
        DecideState::AwaitStore { route } => {
            if ok {
                (DecideState::Finished, DecideAction::Reply { with_meta: route == DecideRoute::WithAi })
            } else {
                (DecideState::Finished, DecideAction::Fail(DispatchFailure::StorageError))
            }
        },
        DecideState::Finished => (DecideState::Finished, DecideAction::Fail(DispatchFailure::InvalidParams)),
    }
}

/// The state a decide request starts in.
pub fn decide_start(ai_requested: bool, provider_available: bool) -> (s: DecideState)
    ensures
        s == (DecideState::AwaitParams { ai_requested, provider_available }),
{
    DecideState::AwaitParams { ai_requested, provider_available }
}

/// Advances a decide request once the step it waited for has succeeded
/// (`ok`) or failed. Reading the parameters leads to building on the route
/// [`decide_route`] chooses, building leads to storing, and storing leads to
/// the answer; a failed step ends the request with its failure. A request
/// that has been answered stays so, and a further step is refused as a
/// request out of place.
pub fn decide_step(state: DecideState, ok: bool) -> (r: (DecideState, DecideAction))
    ensures
        r == decide_next(state, ok),
{
    match state {
        DecideState::AwaitParams { ai_requested, provider_available } => {
            if !ok {
                return (DecideState::Finished, DecideAction::Fail(DispatchFailure::InvalidParams));
            }
            match decide_route(ai_requested, provider_available) {
                Ok(route) => (DecideState::AwaitDecision { route }, DecideAction::Build(route)),
                Err(f) => (DecideState::Finished, DecideAction::Fail(f)),
            }
        },
        DecideState::AwaitDecision { route } => {
            if ok {
                (DecideState::AwaitStore { route }, DecideAction::Store)
            } else {
                match route {
                    DecideRoute::WithAi => (DecideState::Finished, DecideAction::Fail(DispatchFailure::AiError)),
                    DecideRoute::FromSensing => (
                        DecideState::Finished,
                        DecideAction::Fail(DispatchFailure::InvalidParams),
                    ),
                }
            }
        },
        DecideState::AwaitStore { route } => {
            if ok {
                let with_meta = match route {
                    DecideRoute::WithAi => true,
                    DecideRoute::FromSensing => false,
                };
                (DecideState::Finished, DecideAction::Reply { with_meta })
            } else {
                (DecideState::Finished, DecideAction::Fail(DispatchFailure::StorageError))
            }
        },
        DecideState::Finished => (DecideState::Finished, DecideAction::Fail(DispatchFailure::InvalidParams)),
    }
}

/// A decide request is answered with success only right after its decision
/// was stored successfully, and only a decision the model built is answered
/// with the model's report.
pub proof fn lemma_reply_follows_store(state: DecideState, ok: bool)
    ensures
        decide_next(state, ok).1 matches DecideAction::Reply { with_meta } ==> {
            &&& ok
            &&& state matches DecideState::AwaitStore { route }
            &&& with_meta == (route == DecideRoute::WithAi)
        },
        decide_next(state, ok).1 == DecideAction::Store ==> ok && state is AwaitDecision,
{
}

/// The actions taken by a decide request from `state` when its steps turn
/// out as `outcomes`, up to its answer.
pub open spec fn decide_run(state: DecideState, outcomes: Seq<bool>) -> Seq<DecideAction>
    decreases outcomes.len(),
{
    if outcomes.len() == 0 || state == DecideState::Finished {
        Seq::empty()
    } else {
        let (next, action) = decide_next(state, outcomes[0]);
        seq![action] + decide_run(next, outcomes.drop_first())
    }
}

/// In every run of a decide request from its start, each success answer
/// comes right after a request to store the decision, and that store is
/// what the success answer's step outcome reports as done.
pub proof fn lemma_run_replies_after_store(
    ai_requested: bool,
    provider_available: bool,
    outcomes: Seq<bool>,
    i: int,
)
    requires
        0 <= i < decide_run(DecideState::AwaitParams { ai_requested, provider_available }, outcomes).len(),
        decide_run(DecideState::AwaitParams { ai_requested, provider_available }, outcomes)[i] is Reply,
    ensures
        i >= 1,
        decide_run(DecideState::AwaitParams { ai_requested, provider_available }, outcomes)[i - 1]
            == DecideAction::Store,
        outcomes[i],
{
    let start = DecideState::AwaitParams { ai_requested, provider_available };
    let run = decide_run(start, outcomes);
    let (s1, a1) = decide_next(start, outcomes[0]);
    assert(run[0] == a1);
    if i >= 1 {
        let o1 = outcomes.drop_first();
        let run1 = decide_run(s1, o1);
        assert(run[i] == run1[i - 1]);
        // after the first step the request either finished or awaits the decision
        if s1 is AwaitDecision {
            let (s2, a2) = decide_next(s1, o1[0]);
            assert(run1[0] == a2);
            if i >= 2 {
                let o2 = o1.drop_first();
                let run2 = decide_run(s2, o2);
                assert(run1[i - 1] == run2[i - 2]);
                if s2 is AwaitStore {
                    let (s3, a3) = decide_next(s2, o2[0]);
                    assert(run2[0] == a3);
                    if i >= 3 {
                        let o3 = o2.drop_first();
                        assert(s3 == DecideState::Finished);
                        assert(decide_run(s3, o3).len() == 0);
                    } else {
                        assert(i == 2);
                        assert(run[1] == a2);
                        assert(outcomes[2] == o2[0]);
                    }
                }
            }
        }
    }
}

impl DispatchFailure {
    /// The HTTP status the failure is answered with.
    pub open spec fn status_code(self) -> u16 {
        match self {
            DispatchFailure::InvalidParams => 400,
            DispatchFailure::AiNotConfigured => 503,
            DispatchFailure::AiError => 502,
            DispatchFailure::StorageError => 500,
            DispatchFailure::NotFound => 404,
            DispatchFailure::UnknownMethod => 400,
        }
    }

    /// The error code the failure is reported under.
    pub open spec fn code_name(self) -> Seq<char> {
        match self {
            DispatchFailure::InvalidParams => "invalid_params"@,
            DispatchFailure::AiNotConfigured => "ai_not_configured"@,
            DispatchFailure::AiError => "ai_error"@,
            DispatchFailure::StorageError => "storage_error"@,
            DispatchFailure::NotFound => "not_found"@,
            DispatchFailure::UnknownMethod => "unknown_method"@,
        }
    }

    /// The HTTP status the failure is answered with.
    pub fn status(&self) -> (s: u16)
        ensures
            s == self.status_code(),
    {
        match self {
            DispatchFailure::InvalidParams => 400,
            DispatchFailure::AiNotConfigured => 503,
            DispatchFailure::AiError => 502,
            DispatchFailure::StorageError => 500,
            DispatchFailure::NotFound => 404,
            DispatchFailure::UnknownMethod => 400,
        }
    }

    /// The error code the failure is reported under.
    pub fn code(&self) -> (s: &'static str)
        ensures
            s@ == self.code_name(),
    {
        match self {
            DispatchFailure::InvalidParams => "invalid_params",
            DispatchFailure::AiNotConfigured => "ai_not_configured",
            DispatchFailure::AiError => "ai_error",
            DispatchFailure::StorageError => "storage_error",
            DispatchFailure::NotFound => "not_found",
            DispatchFailure::UnknownMethod => "unknown_method",
        }
    }
}

/// How many decisions a list request returns when it names no limit.
pub fn default_limit() -> (n: i64)
    ensures
        n == 100,
{
    100
}

/// The method names served, and what each selects; no other name is
/// served.
pub proof fn lemma_method_names(s: Seq<char>)
    ensures
        method_named("enma.decide"@) == Some(McpMethod::Decide),
        method_named("enma.list"@) == Some(McpMethod::List),
        method_named("enma.list_decisions"@) == Some(McpMethod::List),
        method_named("enma.get"@) == Some(McpMethod::Get),
        method_named("enma.get_decision"@) == Some(McpMethod::Get),
        method_named(s) is Some ==> (s == "enma.decide"@ || s == "enma.list"@ || s
            == "enma.list_decisions"@ || s == "enma.get"@ || s == "enma.get_decision"@),
{
    reveal_strlit("enma.decide");
    reveal_strlit("enma.list");
    reveal_strlit("enma.list_decisions");
    reveal_strlit("enma.get");
    reveal_strlit("enma.get_decision");
    assert("enma.list"@ != "enma.decide"@) by {
        assert("enma.list"@[5] != "enma.decide"@[5]);
    }
    assert("enma.get"@ != "enma.decide"@) by {
        assert("enma.get"@.len() != "enma.decide"@.len());
    }
    assert("enma.list_decisions"@ != "enma.decide"@) by {
        assert("enma.list_decisions"@.len() != "enma.decide"@.len());
    }
    assert("enma.get_decision"@ != "enma.decide"@) by {
        assert("enma.get_decision"@.len() != "enma.decide"@.len());
    }
    assert("enma.get"@ != "enma.list"@) by {
        assert("enma.get"@.len() != "enma.list"@.len());
    }
    assert("enma.get"@ != "enma.list_decisions"@) by {
        assert("enma.get"@.len() != "enma.list_decisions"@.len());
    }
    assert("enma.get_decision"@ != "enma.list"@) by {
        assert("enma.get_decision"@.len() != "enma.list"@.len());
    }
    assert("enma.get_decision"@ != "enma.list_decisions"@) by {
        assert("enma.get_decision"@[5] != "enma.list_decisions"@[5]);
    }
}

/// The tools' descriptions and parameters: decide takes a required string
/// `statement`, an optional string `source_ref` and an optional object
/// `decided_by`; both list tools take an optional integer `limit` of at
/// least 1; both get tools take a required string `id`.
pub proof fn lemma_tool_parameters()
    ensures
        tool_name_list() == seq!["enma_decide"@, "enma_list"@, "enma_list_decisions"@, "enma_get"@, "enma_get_decision"@],
        tool_params(0) == seq![
            ("statement"@, ParamType::String, true, None::<i64>),
            ("source_ref"@, ParamType::String, false, None::<i64>),
            ("decided_by"@, ParamType::Object, false, None::<i64>),
        ],
        tool_params(1) == seq![("limit"@, ParamType::Integer, false, Some(1i64))],
        tool_params(2) == seq![("limit"@, ParamType::Integer, false, Some(1i64))],
        tool_params(3) == seq![("id"@, ParamType::String, true, None::<i64>)],
        tool_params(4) == seq![("id"@, ParamType::String, true, None::<i64>)],
        tool_description(0)
            == "Build a typed Decision from a decision statement, optionally linked to an upstream sensing item."@,
        tool_description(1) == "List persisted Decisions."@,
        tool_description(2) == "List persisted Decisions."@,
        tool_description(3) == "Get a persisted Decision by id."@,
        tool_description(4) == "Get a persisted Decision by id."@,
{
}

/// Reading the parameters of a decide request leads to building on the
/// route the request asked for: the model only when it asked for the model
/// (and a provider is there), the direct promotion otherwise; asking for
/// the model with no provider is refused as not configured, and unreadable
/// parameters as invalid.
pub proof fn lemma_decide_params_step(ai_requested: bool, provider_available: bool)
    ensures
        decide_next(DecideState::AwaitParams { ai_requested, provider_available }, false) == (
        DecideState::Finished, DecideAction::Fail(DispatchFailure::InvalidParams)),
        !ai_requested ==> decide_next(
            DecideState::AwaitParams { ai_requested, provider_available },
            true,
        ) == (DecideState::AwaitDecision { route: DecideRoute::FromSensing }, DecideAction::Build(
            DecideRoute::FromSensing,
        )),
        ai_requested && provider_available ==> decide_next(
            DecideState::AwaitParams { ai_requested, provider_available },
            true,
        ) == (DecideState::AwaitDecision { route: DecideRoute::WithAi }, DecideAction::Build(
            DecideRoute::WithAi,
        )),
        ai_requested && !provider_available ==> decide_next(
            DecideState::AwaitParams { ai_requested, provider_available },
            true,
        ) == (DecideState::Finished, DecideAction::Fail(DispatchFailure::AiNotConfigured)),
        forall|ok: bool| #![auto] decide_next(DecideState::AwaitParams { ai_requested, provider_available }, ok).1
            == DecideAction::Build(DecideRoute::WithAi) ==> ai_requested,
{
}

/// After the build: a built decision is stored; a failed model build is an
/// AI error and a failed direct promotion invalid parameters. After the
/// store: a stored decision is answered, with the model's report exactly on
/// the model's route; a failed store is a storage error.
pub proof fn lemma_decide_later_steps(route: DecideRoute)
    ensures
        decide_next(DecideState::AwaitDecision { route }, true) == (DecideState::AwaitStore { route },
        DecideAction::Store),
        decide_next(DecideState::AwaitDecision { route: DecideRoute::WithAi }, false) == (
        DecideState::Finished, DecideAction::Fail(DispatchFailure::AiError)),
        decide_next(DecideState::AwaitDecision { route: DecideRoute::FromSensing }, false) == (
        DecideState::Finished, DecideAction::Fail(DispatchFailure::InvalidParams)),
        decide_next(DecideState::AwaitStore { route: DecideRoute::WithAi }, true) == (
        DecideState::Finished, DecideAction::Reply { with_meta: true }),
        decide_next(DecideState::AwaitStore { route: DecideRoute::FromSensing }, true) == (
        DecideState::Finished, DecideAction::Reply { with_meta: false }),
        decide_next(DecideState::AwaitStore { route }, false) == (DecideState::Finished,
        DecideAction::Fail(DispatchFailure::StorageError)),
{
}

/// Each failure's HTTP status and code.
pub proof fn lemma_failure_answers()
    ensures
        DispatchFailure::InvalidParams.status_code() == 400 && DispatchFailure::InvalidParams.code_name() == "invalid_params"@,
        DispatchFailure::AiNotConfigured.status_code() == 503 && DispatchFailure::AiNotConfigured.code_name() == "ai_not_configured"@,
        DispatchFailure::AiError.status_code() == 502 && DispatchFailure::AiError.code_name() == "ai_error"@,
        DispatchFailure::StorageError.status_code() == 500 && DispatchFailure::StorageError.code_name() == "storage_error"@,
        DispatchFailure::NotFound.status_code() == 404 && DispatchFailure::NotFound.code_name() == "not_found"@,
        DispatchFailure::UnknownMethod.status_code() == 400 && DispatchFailure::UnknownMethod.code_name() == "unknown_method"@,
{
}

} // verus!
