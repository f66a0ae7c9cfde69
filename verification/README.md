# comline_codegen

The language-neutral side of Comline code generation, verified with Verus.

- `codegen` — the request/output types every generator is built against, and
  `Registry`, which maps `(language, version)` to a generator and each
  language to its file extension. Its contracts are stated over
  `RegistryView` (extension map + generator map); the laws of registering and
  looking up are public proof functions there.
- `codegen_rust` — the Rust generator's contribution to a registry.
- `code_gen` — the built-in generator table (`rust`, `typescript`/`ts`) and
  `find_generator`.
- `ir` — the frozen schema IR that generators consume, and its views.
- `conformance` — the conformance corpus: six fixtures whose exact contents
  are stated, as views, in `corpus`'s contract.

The generators themselves (`generate_rust`, `generate_typescript`) are not
part of this crate; a registry holds a `Generator` handle (or any `Copy`
value, such as a function pointer) for each entry.
