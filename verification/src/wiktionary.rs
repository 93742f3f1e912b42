//! The Wiktionary backend: a dictionary loaded from a data file that holds
//! one record per line.

pub mod adapter;
pub mod entry;
pub mod error;
pub mod field;
pub mod reading;
