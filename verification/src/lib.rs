//! Supervision of a backend server that runs as a child process of a desktop
//! shell: readiness detection on its output, the lifecycle state machine, and
//! the rules for restart, kill, window close and exit.

pub mod command;
pub mod laws;
pub mod model;
pub mod notice;
pub mod readiness;
pub mod supervisor;
pub mod tray;
