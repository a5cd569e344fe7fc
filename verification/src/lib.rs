//! Core of a terminal viewer for tabular data: the view state over the
//! currently displayed dataset, the transient status line, the command
//! registry, the bridge to the SQL engine, and the event dispatch that a
//! thin terminal front end drives.
pub mod bridge;
pub mod command;
pub mod controller;
pub mod dataset;
pub mod event;
pub mod file_format;
pub mod status;
pub mod view;
