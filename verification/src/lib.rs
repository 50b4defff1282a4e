//! Dictionary entries as flashcard notes: the entry model, the rules that
//! build an entry from the blocks of a dictionary page, the encoding of an
//! entry as a note payload, and the decisions around submitting it.

pub mod blocks;
pub mod cli;
pub mod config;
pub mod encode;
pub mod extract;
pub mod jobs;
pub mod model;
pub mod page;
pub mod session;
pub mod submit;
pub mod text;
