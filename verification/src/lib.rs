//! Configuration, log and run-monitoring logic of a desktop front end for the
//! CoreCycler CPU stability tester.
pub mod text;
pub mod model;
pub mod ini;
pub mod config_file;
pub mod log_watch;
pub mod monitor;
pub mod edits;
pub mod app_state;
pub mod choices;
