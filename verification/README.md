# lib — verified typed views over Zelda 3 work RAM

The game keeps its whole state in one flat byte array. This crate gives each
subsystem a pair of views over that array (`FooView` to read, `FooViewMut` to
write), with named getters and setters for the fixed addresses the subsystem
owns.

Every method carries a Verus contract over `ram()`, the bytes of the array as a
sequence:

- a getter states the value it returns in terms of those bytes (out-of-range
  reads give 0, as the accessors are written to);
- a setter states the view's bytes after the call in full, so the bytes it
  leaves alone are part of its contract;
- a mutable view holds the caller's `&mut [u8]` in its public `ram` field:
  `new` ties the field's final value to the borrowed slice's, and every
  method keeps that tie, so once the view is dropped the caller's own array
  holds exactly the bytes the last contract stated;
- `requires` lists exactly the bounds under which the method indexes the array
  without panicking.

Layout:

- `src/types.rs` — little-endian words in a byte array, with their round-trip laws.
- `src/ram/semantic/access.rs` — the shared accessors (bytes, words, split
  positions, fixed-point axis steps, fills and copies) and the spec functions
  the contracts are written in.
- `src/ram/semantic/addresses.rs` — the WRAM addresses.
- `src/ram/semantic/laws.rs` — properties across calls: read-after-write,
  frame conditions, step-and-step-back of the axis arithmetic, fills and copies.
- `src/ram/semantic/<subsystem>.rs` — one file per subsystem's views.

The tests under `tests/` run the views on concrete RAM images.
