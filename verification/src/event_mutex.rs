//! The event and timer centres under the names of the variant of the engine
//! that guards them with a mutex. With the centres held as plain values the
//! two variants coincide, so this module names the same items.
pub use crate::event::{
    event_check, event_emit, event_register, timer_cancel, timer_exdata, timer_fire, timer_register,
    timer_rstage, timer_set_time, timer_stage, timer_update, EventCenter, Timer, Timers,
};
