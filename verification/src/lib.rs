//! A hover-definition service for the Language Server Protocol: the word
//! under the cursor is extracted from a line of text, resolved against a
//! dictionary backend, and the rendered entry is handed back as the hover.
//!
//! This crate holds the decisions of that service; reading files and talking
//! to the client are left to the program around it.

pub mod dict_handler;
pub mod dictionary;
pub mod error;
pub mod example;
pub mod index;
pub mod markdown;
pub mod outside;
pub mod progress;
pub mod server;
pub mod text;
pub mod text_document;
pub mod wiktionary;
pub mod word;
