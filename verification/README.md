# enma

The decisions layer: decisions (a recorded choice with its rationale,
alternatives, consequences and revisit conditions) and directives (goals,
non-goals, constraints, assumptions, principles, success criteria), linked
back to the sensemaking they rest on and forward to the planning they inform.

- `src/` is the library, verified with Verus: the records and their
  validation rules, typed ids and their text form, promotion from
  sensemaking, the decision steps of the AI-assisted flow, and the routing
  and failure rules of the MCP surface.
- `tests/` runs the library on concrete values.
- `app/` is the HTTP/MCP server around it: JSON forms of the records, the
  request to the model, and the store.
