//! The interactive core of a terminal notes browser: which screen is shown, how
//! keys are read on each, when background work (scanning, indexing, vector
//! embedding, related-note lookups) is to be started, and how its messages
//! change what is shown. The caller runs the tasks and the terminal.

pub mod app;
pub mod commands;
pub mod documents;
pub mod keys;
pub mod laws;
pub mod markdown;
pub mod matching;
pub mod model;
pub mod modes;
pub mod text;
