//! Capture-time file naming for photographs and videos.
//!
//! A media file is renamed after the moment its camera recorded: the capture
//! time, read at a fixed UTC+8 offset, becomes a sortable file name. This
//! crate holds the rules: which directory entries are eligible, how the name
//! is derived from the two capture tags, and what is done with a file once
//! its new name is known. Reading tags and touching the file system are left
//! to the caller.

pub mod cli;
pub mod decimal;
pub mod epoch;
pub mod error;
pub mod filename;
pub mod policy;
pub mod report;
pub mod select;
pub mod text;
