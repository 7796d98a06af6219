# rfl_core

The core of the Robot Foundation Layer, verified with Verus: the Skill ISA
(fifty manipulation primitives and their composition rules), grasp stability
classes, the embodiment descriptor model, and the deterministic retargeting of a
skill onto an embodiment as a sequence of canonical actions.

- `src/` — the verified library. Contracts are stated over spec functions:
  `Skill::validate` is exact against `spec_validate`, `translation::retarget`
  against `spec_retarget`, and each `lower_*` function against its
  `spec_lower_*`. Quantities the retargeting derives in floating point are
  carried as `QuantityExpr` values that name the computation and its inputs.
  Laws relating several functions are public proof functions in
  `composition.rs` and `translation.rs`.
- `tests/` — scenario tests against the library.
- `app/` — the I/O layer: YAML reading (serde), the floating-point grasp-force
  formulas, sweep generators and contact geometry (nalgebra), and JSON Lines
  emission of `execute` messages.
