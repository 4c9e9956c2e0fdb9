//! The task subcommands of fypm as verified state machines over taskwarrior.

pub mod args;
pub mod calendar;
pub mod command;
pub mod flow;
pub mod flows;
pub mod model;
pub mod text;
pub mod uuid;
