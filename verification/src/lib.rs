//! Coordination core of a tabbed page viewer: a registry of open sessions,
//! the events that background fetch jobs hand to the presentation loop, and
//! the loop's decisions, stated as a step from registry and event to the new
//! registry and the presentation commands to carry out.

pub mod text;
pub mod tab_manager;
pub mod fetcher;
pub mod events;
pub mod jobs;
