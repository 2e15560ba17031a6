# crement

C-style prefix and postfix `++` / `--` for Rust, with the macro's logic
verified by Verus.

`crement!(++x)`, `crement!(x++)`, `crement!(--x)`, `crement!(x--)` and the
aliases `pre_inc!`, `post_inc!`, `pre_dec!`, `post_dec!` expand to a block
that updates the operand by one and gives back a clone of the new value
(prefix forms) or of the old value (postfix forms).

## Layout

- `src/tokens.rs` — what the operator search reads of each token tree
  (punctuation character and spacing), and the calls into `proc-macro2`
  that split and gather token streams.
- `src/parse.rs` — the operator search (`locate_operator`, specified by
  `locate`), the refusal of an operand with a `++` / `--` nested in it (a
  nested use of the macro), the refusals' messages, and the parse of the
  operand with `syn`.
- `src/expand.rs` — the block each form expands to (`plan`), the meaning
  of its statements (`step_effect`, `runs`), and `Expansion::run`, which
  performs the block on a value.
- `src/steppable.rs` — `x += 1` / `x -= 1` on the operand, for every
  primitive integer type.
- `src/api.rs` — the five forms, from input tokens to an `Expansion`.
- `src/laws.rs` — properties of the library as a whole, proved.
- `app/lib.rs` — the procedural-macro entry points, which write an
  `Expansion` out as tokens with `quote`.
