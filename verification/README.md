# anaheim

Building blocks of a small Rust service framework, verified with Verus.

- `src/` is the verified library:
  - `derive`: the code generation behind the `config`, `controller` and
    `service` attributes, over a plain-value model of the Rust items they
    are applied to (`derive::model`). Each expansion's result is stated
    exactly as Rust source text, given the outcomes of the steps left to
    `syn` and `proc-macro2` (parsing attribute argument lists, lexing
    string values, parsing a generated name as a type), which
    `derive::reading` records and the `_with` functions take as
    arguments; the rules for `#[new(..)]` field
    attributes, lint attributes, constructor parameters and the split of a
    service's methods into trait and inherent methods are spelled out as
    spec functions, with laws about them.
  - `http_server`: the address a server binds to and the choice among the
    resolved addresses.
  - `telemetry`: the plan telemetry start-up follows (log filter, OTLP
    exporter, resource attributes) and trace ids as 32 hexadecimal digits.
  - `util`, `text`, `config`: the host name, decimal and hexadecimal
    rendering, configuration types.
- `app/` holds what runs around it: the HTTP servers (axum and poem),
  graceful shutdown, telemetry installation, configuration that
  deserializes, and the attribute entry points that read macro input with
  `syn` into the library's model. They are plain functions taking and
  returning `proc_macro::TokenStream`: registering them with
  `#[proc_macro_attribute]` takes a crate of the proc-macro kind, which
  is not part of this repository.
- `tests/` exercise the library on concrete inputs.
