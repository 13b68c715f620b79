# hir_diagnostics

Lowering of the findings of type inference and body validation into the
diagnostics that an IDE reports, verified with Verus.

The lower layers hand over findings anchored at HIR entities (expressions,
patterns, type references, path segments). Lowering maps each finding back to
the syntax it concerns through the body's source maps and the parsed files, and
either builds the diagnostic of the same name or drops the finding when the
syntax is missing (desugared code) or of the wrong shape.

Layout of `src/`:

- `syntax.rs` – node kinds, ranges, node pointers, `InFile`, parsed nodes and
  their child queries.
- `ids.rs` – ids of HIR entities and the handles diagnostics carry (`Type`,
  `Field`, `AssocItem`, ...).
- `db.rs` – the parsed nodes of all files and the fields of all variants, with
  node resolution.
- `source_map.rs` – body and type source maps.
- `findings.rs` – the findings handed to lowering and the values diagnostics
  carry along.
- `diagnostics.rs` – the diagnostics and `AnyDiagnostic`; `into_any.rs` – their
  conversions into `AnyDiagnostic`.
- `lower_path.rs`, `lower_inference.rs`, `lower_body.rs` – the lowering
  functions, each with an exact contract over a spec function.
- `laws.rs` – properties of lowering as a whole.
