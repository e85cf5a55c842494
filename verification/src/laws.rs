//! What holds of the library as a whole.
//!
//! [`answers`], [`requests`], [`reports`], [`programs`], [`queries`] and
//! [`process`] say of each operation how its result relates to its arguments.
//! The others say what follows over a whole life.

pub mod answers;
pub mod client;
pub mod commands;
pub mod life;
pub mod pane;
pub mod polling;
pub mod process;
pub mod programs;
pub mod queries;
pub mod reports;
pub mod requests;
pub mod timing;
pub mod wire;
