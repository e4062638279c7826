//! Rewrites the timestamp embedded in a log line into a chosen timezone.
//!
//! A small declarative format language (date and time token specifiers) is
//! compiled into exact-shape recognizers; a prioritized registry of those
//! recognizers is tried against each line; the first match is parsed into an
//! absolute instant, re-rendered in the destination timezone with the same
//! format, and spliced back in place, leaving the rest of the line untouched.

pub mod args;
pub mod converter;
pub mod format;
pub mod parser;
pub mod reader;
pub mod rx;
pub mod text;
pub mod token;
pub mod zone;
