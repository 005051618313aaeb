# ratatui-flip-panel

A two-faced terminal panel that flips between a front and a back face with
a horizontal-squish animation, with its state machine and layout decisions
verified by Verus.

- `src/duration.rs` — `Duration`, a nanosecond-precise span with the range of `std::time::Duration`.
- `src/clock.rs` — the monotonic clock (`std::time::Instant`) behind trusted wrappers.
- `src/state.rs` — `FlipState`, its abstract model `FlipModel`, and the flip / tick / face / frame-delay decisions.
- `src/laws.rs` — properties that span several operations of the state machine.
- `src/layout.rs` — `Area`, centre-shrinking of the panel, and the plan of one frame.
- `app/lib.rs` — the ratatui widget `FlipPanel`, the floating-point progress and width ratio, and conversions.
