//! The decisions of a daemon that tells coding agents when the CI pipeline of
//! their merge request has finished.
//!
//! Clients register a pipeline together with the tmux pane their agent runs
//! in. A polling task then asks GitLab for the pipeline's status until it is
//! done. If the pane shows the same as when watching began, the agent is
//! prompted in it; else the user is notified on the desktop.
//!
//! Everything here is computation. Each module that stands between two pieces
//! of outside work is a small machine: `action` says what is to be done next,
//! and `advance` takes what came of it. [`laws`] states what holds of these
//! machines over their whole life.

pub mod command;
pub mod connection;
pub mod daemon;
pub mod desktop;
pub mod gitlab;
pub mod json;
pub mod laws;
pub mod notify;
pub mod numbers;
pub mod poll;
pub mod protocol;
pub mod registry;
pub mod text;
pub mod tmux;
