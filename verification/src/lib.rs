//! Visual-mode highlights of a terminal multiplexer: which text each attached
//! client has highlighted in which pane, how a pointer drag becomes a stored
//! highlight, and what a highlight command answers.

pub mod client;
pub mod command;
pub mod command_laws;
pub mod drag_laws;
pub mod host;
pub mod host_laws;
pub mod ids;
pub mod outcome;
pub mod outcome_laws;
pub mod server;
pub mod snap;
pub mod snap_laws;
pub mod span;
pub mod state_laws;
pub mod text_laws;
pub mod text_view;
pub mod visual;
pub mod visual_laws;
