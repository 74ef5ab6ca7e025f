//! Core of a terminal client for remote task lists: the task model, due-date
//! classification and humanizing, a backend capability interface with an
//! in-memory Google Tasks backend, and the navigation state machine.

pub mod text;
pub mod timestamps;
pub mod formatter;
pub mod task;
pub mod provider;
pub mod google;
pub mod app;
pub mod config;
