# brahma_synth

Components for synthesizing small tensor programs (TensorFlow-style operators over
integer tensors) from input/output examples.

* `src/builder.rs` — `ProgramBuilder`, which writes a straight-line program of
  `Instruction`s; each instruction defines the id of its own position.
* `src/operator.rs` — `Operator`, the operations of a program with their operand ids,
  their arity, renaming of operands, and their text.
* `src/expr.rs` — symbolic integer, boolean, array and table terms (`IntExpr`, ...),
  what they mean under a valuation (`eval_int`, ...), and `ExprContext`, which names
  fresh arrays.
* `src/component.rs`, `src/components/`, `src/dispatch.rs` — the `Component` interface
  and one component per operator. A component rebuilds its operator from operand ids and
  encodes its result on a fixed `ROWS` x `COLS` grid of terms; every encoding is stated
  exactly, cell by cell, by a spec function.
* `src/laws.rs`, `src/laws/` — proved laws: how operators relate to their operands,
  what each encoding means (sums, maxima, argmax, masks, products, ...), and that an
  encoding reads no fresh array but its operands' and its own.
* `app/` — the solver side: lowering terms into Z3 terms, and showing operators and
  programs as text.

Everything under `src/` is verified with Verus; `tests/` runs the library on concrete
tensors.
