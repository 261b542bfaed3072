# fused

The front end and bytecode reader of the Fused language, verified with Verus.

- `src/file.rs`, `src/location.rs`: the character cursor that the tokenizer reads
  from, and source locations.
- `src/tokens/`: the tokenizer. Each reader (`literal`, `ident`, `punct`,
  `comment`, `group`, `spacing`) is specified by a function on the text
  (`literal_at`, `ident_at`, ...); `lex_token` combines them and `lex_all`
  reads a whole text. `stream.rs` holds the token stream.
- `src/ast/`: the parsers over token streams. Every `Parse` type states what it
  reads as a function on the tokens left in the stream (`parse_spec`), together
  with the number of tokens it takes. `number.rs` reads number literals; a
  literal with a fraction keeps its text.
- `src/runtime/`: the bytecode instructions and reader, the listing of a
  chunk's instructions (`chunk.rs`), the decoding of each instruction into what
  the interpreter is to do (`thread.rs`), the symbol tables of the code
  generator, and the runtime's error types.
- `app/`: the program that reads a source file and lists its tokens, the error
  types with their messages, the register values and stack, whose arithmetic is
  floating point, and the interpreter loop that carries out what `thread::step`
  decodes.
- `tests/`: the tests.
