# nilo

The verified core of nilo, a UI framework whose screens, flows and
interactions are written in the `.nilo` language and drawn as stencils.

- `src/` is the library, verified with Verus: the syntax tree of `.nilo`
  programs, the screen flow and its normal form, namespace flattening and
  program assembly, type inference and checking, literal values (strings,
  colours, edges, sizes), styles from object literals and their merging,
  node paths and fingerprints for change detection, the items of `foreach`,
  the UI event queue, frame-timing samples and the stub renderers.
- `app/` is ordinary Rust around it: everything that computes with
  floating point (unit conversion, calc expressions, style fingerprint
  text, timing averages) and the renderer trait.
- `tests/` runs the library on concrete programs and values.

The text parser of the `.nilo` language is not in the library: its grammar
is not part of this source. The library starts from parsed definitions
(`parser::parse::assemble_app`), parsed type names
(`parser::types::type_from_text`) and parsed stencil calls
(`parser::stencil_call::stencil_from_call`).

Single-precision quantities are stored in the library as their IEEE-754 bit
patterns (`u32`); `app/` converts them with `f32::from_bits` and
`f32::to_bits`.
