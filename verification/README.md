# monty_policy

A Cedar policy engine for the Monty Python sandbox, verified with Verus.

Sandboxed scripts reach the host only through operations that the interpreter
hands to the host: filesystem calls, environment variables and external
functions. The engine maps each operation to a Cedar action and resource, asks
Cedar for a decision against the policies it was built with, applies its default
decision (deny or allow) to the cases no policy decides, and records each decision
so that a repeated request is answered the same way.

Layout:

- `src/os_call.rs`: the operations a script asks for.
- `src/request.rs`: the mapping from operations to Cedar actions and resources, and
  the Cedar requests built from them.
- `src/entities.rs`: the principal and resource entities.
- `src/engine.rs`: the engine, its default-decision rule, its contracts and laws.
- `src/cache.rs`: the decision cache.
- `src/options.rs`: the options of the language bindings.
- `src/error.rs`, `src/schema.rs`: errors and the embedded Cedar schema.
- `src/cedar.rs`: the trusted calls into the `cedar-policy` crate.
- `app/`: the JavaScript (napi) and Python (pyo3) classes around the engine.
