//! Parsing, checking and in-place patching of a line-oriented key/value
//! options file.
//!
//! The file format is one record per line: a key, a single `:` separator,
//! and a value (which may itself contain further `:` characters). The
//! library parses such a file into a [`record::Document`], looks up the
//! `maxFps` field, replaces the sentinel bad value `"0"` by the good value
//! `"120"` when present, and serializes the document back to lines that are
//! byte-for-byte identical to the input except for the one patched value.

pub mod error;
pub mod record;
pub mod parser;
pub mod accessor;
pub mod policy;
pub mod serializer;
pub mod pipeline;
