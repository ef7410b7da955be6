# lavish

A compiler for lavish service definitions, written in Verus: every function
of the library states what it does in `requires`/`ensures`, and every one
but a few thin wrappers around outside code is proved to do it.

The wrappers are marked `#[verifier::external_body]`; Verus takes their
contracts on trust.  They call `String::push`, `str::to_lowercase` and
`{:?}` formatting of a `str` from std, heck's case conversions (CamelCase,
mixedCase, snake_case), crc's CRC-32C checksum, and indexmap's
`IndexMap` (`new`, `insert`, `get_index`, `len`), which keeps declarations
by name in the order they were first declared.

## Layout

- `src/grammar.rs` — the grammar of schemas and `lavish-rules` files, as
  spec functions from the input characters and a position to a result; a
  failure records the constructs it happened inside.
- `src/parser.rs` — the executable parser; each rule is proved to give
  exactly what the grammar says, errors included.
- `src/ast.rs` — the syntax tree and its mathematical model.
- `src/checker.rs` — names declared twice in a scope, and nested functions
  on the wrong side.
- `src/outline.rs` — the outline that `lavish print` shows.
- `src/anchored.rs` — scopes of a schema and the lookup of dotted type names.
- `src/types.rs` — schema types written as Rust types.
- `src/naming.rs`, `src/common.rs` — names and paths used by generated code.
- `src/output.rs` — indented text output with nested scopes.
- `src/lang.rs`, `src/ir.rs` — pieces of generated Rust: attributes,
  enums, functions, impls, the protocol and client modules
  (`src/client.rs`: the client type of one side).
- `src/codegen.rs` — the generator of a rules file's target, and the files
  it writes for a workspace: each member's module and the root module.
- `src/module.rs` — the schema part of a generated member module (a module
  per namespace and per function, a struct per schema struct), and the
  functions of a schema in the order generated code lists them.
- `src/member.rs` — the whole generated module of a workspace member:
  prelude, protocol, enums, client, atoms, handler and peer builder.
- `src/merged.rs` — several schemas in one Rust file, top-level namespaces
  of the same name merged.
- `src/symbols.rs` — the symbols of a namespace body: each struct and enum
  with its `Factual` impl, a module per function (its `Params` and
  `Results` structs and their impls), a module per namespace; and the
  `Factual` impl of a protocol enum.
- `src/protocol.rs` — the protocol module's unions of functions (`Params`,
  `Results`, `NotificationParams`) and its type mapping: the offsets of
  the builtin unions, structs and enums.
- `src/rpc.rs` — the decisions of the RPC runtime: request numbering,
  requests in flight, answers to calls.
- `src/diag.rs` — line and column of an offset, caret lines, and the
  message of a parse error with a note for each construct it happened
  inside.
- `app/main.rs` — the `lavish` command (`build`, `print`): files, terminal
  colours and command-line handling.
- `tests/` — tests on concrete inputs.
