//! Daily Bible reading reminders: per-chat preferences, the schedule lookup,
//! the reminder scheduler and the texts sent to a chat.

pub mod biblereading;
pub mod clock;
pub mod commands;
pub mod localize;
pub mod scheduler;
pub mod text;
pub mod userstate;
