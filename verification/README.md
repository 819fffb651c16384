# logicapps_lint

A local linter for Azure Logic Apps workflow definitions, as a library whose
behaviour is stated in contracts and proved by Verus, with a command line
around it.

The rules report findings: a code, a severity, the path of the file, a JSON
Pointer, a byte span where there is one, and a message. Every rule has a
specification function that gives the findings of its input in order, and an
executable function that is proved to append exactly those.

## Layout

- `src/json.rs`: JSON nodes with byte spans, JSON Pointers, and reading
  documents (`json::read`).
- `src/arm.rs`: what template evaluation knows of the expressions in a
  document.
- `src/workflow.rs`: the graph summary of a definition, its extraction, and
  where definitions stand in a document.
- `src/wdl.rs`: the scanner for expressions inside strings: calls, references,
  syntax issues, and what a string may turn out to be.
- `src/shape.rs`: the shape rules, from single fields (`field_validators`) up
  to a whole definition (`root`).
- `src/strictness.rs`: the strict / lenient policy.
- `src/cli.rs`, `src/human.rs`, `src/path_utils.rs`, `src/deployment.rs`: the
  decisions of the command line, rendering, paths, and parameter files.
- `app/`: the program: arguments, files, the clock, and printing.
- `tests/`: tests of the compiled library.

Properties that span functions are public proof functions whose names start
with `law_`.

## What is taken on trust

Calls into `serde_json`, `json_spanned_value` and `annotate_snippets`, and the
standard library's `String::from_utf8` and `String::from_iter`, stand behind
small functions whose contracts are not proved; the doc comment of each says
what it claims. Floating-point text, the clock and the evaluation of template
expressions come in as plain values.
