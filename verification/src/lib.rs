//! The document and tab model of a plain-text editor: the open documents, the
//! one that is active, and what is decided on each thing the user asks for.
//!
//! The library opens no dialog and touches no file. It is handed what the
//! user chose and what the filesystem answered, and says what is to be read
//! or written next; see [`MyApp::handle`].

pub mod path;
pub mod tab;
pub mod event;
pub mod app;
pub mod laws;

pub use crate::app::MyApp;
pub use crate::event::Action;
pub use crate::event::Event;
pub use crate::event::IoError;
pub use crate::path::file_from_path;
pub use crate::tab::Tab;
