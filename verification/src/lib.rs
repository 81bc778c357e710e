//! A work timer that cycles through fixed-length pomodoro intervals and
//! short breaks, with every fourth break promoted to a long break. The
//! cycle engine owns the state machine, emits progress ticks while an
//! interval runs, and reports each completion to registered observers and
//! over a channel to a presentation thread, which acknowledges it and
//! requests the next interval. A persistence observer keeps the day's
//! completed-pomodoro count in a record store between sessions.

pub mod communication;
pub mod csvfile;
pub mod decimal;
pub mod nullfile;
pub mod observers;
pub mod output;
pub mod pomodoro;
pub mod record;
pub mod recordfile;
pub mod uimessages;
pub mod userinterface;
pub mod yamlconfig;
