//! A facade over an embedded, transactional key-value store.
//!
//! The library decides; a host performs. Every engine call and every file
//! access is an [`Action`] that the session hands to its host, and the host
//! answers with an [`Event`]. What the session asks for next, what it prints
//! and which error it reports are functions of the configuration and of the
//! answers so far, and those functions are what is verified here.
pub mod error;
pub mod text;
pub mod listing;
pub mod config;
pub mod protocol;
pub mod operations;
pub mod session;
pub mod conversation;
pub mod scoping;
pub mod world;

pub use crate::error::{AccessMode, Fault, PresentableError};
pub use crate::config::{normalize_dir, Config};
pub use crate::listing::{render_table, ListEntry};
pub use crate::protocol::{Action, Event, Progress};
pub use crate::operations::{
    extract_all, extract_key, get_database, insert, print_list, ExtractStage, InsertStage,
    ListStage, OpenStage, SweepStage,
};
pub use crate::session::{run, Session, Stage};
