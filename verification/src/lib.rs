//! A flippable two-faced panel: the animation state machine and the
//! layout decisions behind a horizontal-squish card flip.
//!
//! [`FlipState`] holds the resting face and whether a flip is in flight.
//! Every decision that depends on the clock is also offered as a function
//! of the elapsed time alone (the `*_at` methods), whose outcome is stated
//! exactly; the clock-reading methods state what holds whatever the clock
//! returns. [`narrow_area`] and [`frame_plan`] decide where a frame of the
//! animation is drawn.

pub mod clock;
pub mod duration;
pub mod laws;
pub mod layout;
pub mod state;

pub use duration::Duration;
pub use layout::{frame_plan, narrow_area, Area, FramePlan, DEFAULT_MIN_WIDTH};
pub use state::{FlipModel, FlipState, FRAME_MILLIS};
