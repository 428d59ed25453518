# lens

Lenses for immutable Rust data structures, verified with Verus.

- `src/lenses.rs`: the `Lens`, `RefLens` and `ValueLens` traits with their
  contracts, the vector-element lens, lens composition, and the lens laws
  (`lawful`), proved for vector-element lenses, preserved by composition and by
  boxing; composition is proved associative.
- `src/path.rs`: `LensPath`, the identifiers from a source to a target, with its
  constructors, concatenation and rendering.
- `src/naming.rs`, `src/derive.rs`: what `#[derive(Lenses)]` generates for a
  struct, computed from a model of the struct's definition.
- `src/expression.rs`: what `lens!(Root.field[index].child)` composes, computed
  from a model of the expression.
- `src/text.rs`: decimal numbers and path rendering.
- `app/lib.rs`: the two expansions on Rust syntax, reading with `syn` and writing
  with `quote`, for a proc-macro crate to forward its entry points to.
