# lucy_lang

The front end of the Lucy language, written in Verus: every function in
`src/` is verified against a contract stated over mathematical models of its
inputs and outputs.

## Layout

- `src/lexer.rs`, `src/lexer_spec.rs`: source text to tokens with byte spans;
  the tokens are those of a spec function over the characters of the source;
  every span lies within the source, and in a source without f-strings the
  tokens come in order and each identifier's span covers its own name.
- `src/parser.rs`, `src/parser_spec.rs`, `src/grammar.rs`, `src/parse_*.rs`,
  `src/rules/`: the recursive-descent parser. `grammar.rs` states the grammar
  as spec functions from the tokens and a parse state to a tree and the next
  state; each parsing method (one per module under `rules/`) returns exactly
  what the grammar gives.
- `src/macro_spec.rs`, `src/macro_expand.rs`: macro expansion — matching an
  invocation against a macro's arms, filling the template of the first arm
  that matches, and parsing the result.
- `src/ty.rs`, `src/scopes.rs`, `src/tc_spec.rs`, `src/typechecker.rs`,
  `src/checker/`: the type checker. `tc_spec.rs` states what checking a
  statement or inferring an expression does to the checker's state;
  `tc_laws.rs` proves that checking only adds errors and classes and leaves
  the open scopes, the current class and the return type as they were;
  `tc_wf.rs` proves that a well-formed checker, such as a new one, never
  stops on any program and stays well formed.
- `src/vm.rs`, `src/bytecode_debug.rs`: instruction encoding and opcode names.
- `src/compiler.rs`: pieces of the bytecode compiler (register allocation,
  compiling contexts, dotted paths, the locations compile errors name). The
  code generator itself (compiling statements, expressions and classes to
  bytecode) and the virtual machine that runs bytecode are not part of this
  crate: the code generator was written against a shape of the syntax tree
  that the parser no longer produces, and the virtual machine computes with
  floating point and shares class instances through reference-counted cells.
- `src/lsp.rs`: positions, words and semantic tokens for the language server.
- `src/module.rs`, `src/lucy_mod.rs`, `src/builtin_types.rs`: native modules
  as the type checker sees them, and the project configuration.
- `app/main.rs`: the language server itself (stdin/stdout, `tower-lsp`).
- `tests/`: tests of the library on concrete programs.
