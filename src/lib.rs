//! Recursive search and replace: the matching, replacing and rewriting rules
//! behind a tool that walks a directory tree, filters files by name, and
//! searches or rewrites their contents line by line.
pub mod pattern;
pub mod replacer;
pub mod text;
pub mod instance;
pub mod contents;
