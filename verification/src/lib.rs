//! Structural validation of fleet-roster data files.
//!
//! A roster document is a JSON text describing vehicle fleets. This crate
//! checks one document at a time against a fixed nested schema
//! (root -> vehicle types -> roster entries -> fleet selector) and reports
//! either success or a diagnostic naming the offending field. It also
//! provides the pure bookkeeping for a recursive directory walk that
//! selects candidate `.json` files; the filesystem reads themselves are
//! left to the caller.

pub mod check;
pub mod decode;
pub mod discover;
pub mod json;
pub mod laws;
pub mod model;
pub mod report;
pub mod schema;
