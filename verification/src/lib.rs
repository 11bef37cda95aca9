//! The non-visual engine of a manual-page browser: the command catalog, the
//! filtered view over it, manual-page classification and the history of
//! viewed commands.

pub mod catalog;
pub mod filter;
pub mod history;
pub mod laws;
pub mod manpage;
pub mod search;
pub mod session;
pub mod text;
