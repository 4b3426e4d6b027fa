# stress_center

The verified core of Stress Center, a GTK system monitor with a Stress page
that drives `stress-ng`.

- `src/stress/` — the `stress-ng` command line (`config`), what is done with
  its output (`output`: CPU method list, failure lines, log styles), the
  bookkeeping of its process group (`group`), and the Stress page's controls
  (`page`).
- `src/cpu.rs`, `src/gpu.rs`, `src/partition.rs` — layout and selection rules
  of the CPU, GPU and disk-partition views.
- `src/icons.rs`, `src/summary.rs`, `src/text.rs` — icon cache queries, the
  clipboard summaries, and character-sequence helpers.
- `app/` — the process handling around the library (spawning and signalling
  `stress-ng`, taking its group down on quit or crash) and the
  floating-point readouts.

The functions in `src/` are verified with Verus, except for a few
`#[verifier::external_body]` wrappers: `text::push_char` (`String::push`)
and, in `gpu.rs`, the calls into `bitfield` and `arrayvec`. Verus trusts
their contracts without proof; each one's doc comment names the call it
makes and what its contract claims.
