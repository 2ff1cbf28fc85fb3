//! Session controller for a terminal client of a task-queue daemon.

pub mod app;
pub mod events;
pub mod names;
pub mod pueue_client;
pub mod state;
pub mod text;
pub mod tree;
pub mod ui;
