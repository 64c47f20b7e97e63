# racer_ast

Reading names, paths and types out of fragments of Rust source, for a code
completer, verified with Verus.

- `src/syntax_tree.rs`: the parts of a parsed syntax tree that are read, as plain
  values (identifiers, byte offsets, child nodes).
- `src/parse.rs`: parsing text with the `syntex_syntax` parser and reading the
  parsed tree into `syntax_tree` values. What the parser gives for a text is
  named (`parsed_stmt`, `parsed_expr`, `parsed_item`, `parsed_crate`) rather than
  restated.
- `src/visitors.rs`: the visitors that read `use` paths, struct fields, type
  aliases, traits, impls, functions, modules and enums, each with a spec
  function that says exactly what it records.
- `src/extract.rs`: parsing a text and running one visitor over it.
- `src/typeinf.rs`: working out the type of an expression or of a `let`
  binding. Name resolution reads a project's files, so these are step machines:
  each step asks one question of the name resolver or ends. Their contracts hold
  for every way of answering (`World`).
- `src/laws.rs`: properties relating several functions or inputs.
- `app/lib.rs`: runs the machines against a name resolver, and keeps the
  parser's panics on malformed text away from callers that only probe a text.
- `tests/`: tests on concrete texts, with a small resolver for the machines.
