//! A verified core for an install wizard that sets up a Rust development
//! environment: the menu of installable tools, the recipes behind each menu
//! entry, the step-by-step installation protocol, and the recognition and
//! configuration of the user's shell.

pub mod cli;
pub mod shell_type;
pub mod recipe;
pub mod selection_tree;
pub mod wizard;
pub mod install_plan;
