//! A slash command that echoes its arguments back, joined by spaces, behind a
//! fixed label, as one output section covering the whole text.

pub mod join;
pub mod output;

pub use join::join_arguments;
pub use output::{OutputSection, SlashCommandOutput, WingmanExtension};
