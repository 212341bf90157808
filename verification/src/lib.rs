//! Filing scanned documents out of an inbox directory.
//!
//! Scanned PDF files wait in an inbox. For each one an operator confirms a
//! date, a category and a description, and the document is filed under
//! `<category>/<year>/<date> <description>.pdf`, whole or split at a page.
//!
//! This library decides; it reads and writes no file and starts no tool.
//! Its caller lists directories, runs the tools and hands the results in:
//!
//! - [`inbox`] picks the next waiting document from a directory listing;
//! - [`date`] proposes a date from the document's text;
//! - [`targets`] lists the categories from the directory tree;
//! - [`filing`] checks a request and names, step by step, the operations
//!   that file the document;
//! - [`session`] remembers the category that was used last;
//! - [`page`] puts together what the operator is shown;
//! - [`command`] holds the command lines of the outside tools;
//! - [`decimal`] reads and writes decimal numbers.

pub mod command;
pub mod date;
pub mod decimal;
pub mod filing;
pub mod inbox;
pub mod page;
pub mod session;
pub mod targets;
