//! Sit/stand reminder: a pausable stopwatch and the interaction state machine
//! that alternates between a sitting and a standing interval.
pub mod duration;
pub mod format;
pub mod model;
pub mod pausable_timer;

pub use duration::Duration;
pub use format::{format_duration_hours_minutes, format_duration_hours_minutes_seconds};
pub use model::{
    check_timer, clamp_to_bounds, handle_async, handle_key, update, Key, Message, Model, Notice,
    RunningState, State, WidgetBlock, DEFAULT_SITTING_SECS, DEFAULT_STANDING_SECS,
    MAX_DURATION_SECS, MIN_DURATION_SECS, STEP_SECS,
};
pub use pausable_timer::{Timer, TimerState};
