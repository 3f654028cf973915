# necessist_ts

Necessist runs tests with statements and method calls removed, to find those that are not needed.
This crate is what its support for TypeScript decides, written in
[Verus](https://github.com/verus-lang/verus) and proved to do what its contracts say.

- `src/warning.rs`, `src/emitted.rs`, `src/warn.rs`: warnings and notes. A warning is an error, a
  line to print, or nothing, depending on the options and on what has been printed before.
  `src/warn_history.rs` states what holds of any sequence of warnings.
- `src/kebab.rs`, `src/paint.rs`, `src/quote.rs`: kebab case, colors and quotes.
- `src/ts/inner.rs`, `src/ts/messages.rs`, `src/ts/assoc.rs`: which `it` messages a dry run showed,
  and what follows for the tests that they name. `src/ts/history.rs` states what holds of any
  sequence of dry runs and decisions.
- `src/ts/ast.rs`, `src/ts/nodes.rs`, `src/ts/it_call.rs`, `src/ts/syntax.rs`: the syntax that
  matters, what it is called, and which of it is a test.
- `src/ts/span.rs`, `src/ts/lines.rs`, `src/ts/swc.rs`: positions in source files, and the parser.
  `src/ts/bigint.rs` and `src/ts/template.rs` tell which texts the parser may not survive.
- `app/`: the parts that read files, run commands and print.

Where a proof rests on another crate, the function that calls it says in its documentation what is
believed of it.
