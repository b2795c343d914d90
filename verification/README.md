# rustscript

A verified library for RustScript, a language for writing syntax-tree
transformation plugins that target both Babel and SWC, together with the
analysis that turns an existing Babel plugin into an SWC plugin crate and the
Minimact component transformation.

- `src/` is the library, verified with Verus: the RustScript parser (proved
  against the grammar in `grammar`), name resolution and type checking (each
  pass proved against a specification of the pass), the node and type
  mapping tables, the Babel-plugin analysis over a model of the JavaScript
  syntax tree (`js`, `analyzer`), code generation for the SWC plugin
  (`translate`, `condition`, `codegen`, `inline`, `crate_files`,
  `plugin_lib`), and the Minimact pieces (`component`, `minimact`,
  `hook_extractors`, `templates_json`).
- `tests/` exercises the library.
- `app/` is the command-line program: it reads files, walks the `swc` syntax
  tree with `swc_ecma_visit`, hands each node the analysis reads to the
  library, and writes the generated files.
