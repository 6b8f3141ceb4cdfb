//! Converts a VS Code theme document into a partial ("refinement") theme for a
//! host editor: parses textual color values, maps named source fields onto
//! target color slots, and flattens ordered token-color rules into a
//! last-write-wins highlight mapping.

pub mod color;
pub mod convert;
pub mod error;
pub mod highlights;
pub mod output;
pub mod vscode;
