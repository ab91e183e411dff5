//! Sprite-sheet frame animation driven by a single-shot countdown.
//!
//! Each animated sprite carries an [`AnimationConfig`] (frame range, playback
//! rate and a countdown of one frame period) next to the frame index that the
//! host displays.  [`execute_animations`] advances every sprite by the time
//! that has passed since the previous update; [`trigger_animation`] restarts
//! the countdown of the one sprite that carries a given marker.
//!
//! Time is counted in whole nanoseconds, so that "one frame lasts exactly
//! `1 / fps` seconds" can be stated and proved without rounding.

pub mod animation;
pub mod playback;
pub mod systems;
pub mod timer;

pub use animation::{AnimatedSprite, AnimationConfig, AnimationState, SpriteState};
pub use systems::{execute_animations, trigger_animation, TriggerError};
pub use timer::{frame_period_nanos, Countdown, FrameTimer, NANOS_PER_SECOND};
