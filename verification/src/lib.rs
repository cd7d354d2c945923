//! The session of a tabbed document viewer: the documents that are open,
//! the tabs that show them, and the rules that keep the selected and the
//! previous tab in place while tabs come and go.

pub mod document;
pub mod language_labels;
pub mod laws;
pub mod numerals;
pub mod paths;
pub mod session;
