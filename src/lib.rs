//! Synchronises torrent records from a relational store into a search index:
//! rows are decoded into records, records are assembled into documents, and
//! the outcome of each publish is tallied into a run summary.

pub mod row;
pub mod record;
pub mod document;
pub mod publish;
pub mod summary;
pub mod laws;
