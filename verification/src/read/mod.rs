//! The assembler: builders that turn construct events into records of the
//! model, and the readers that fold a stream of events into a technology
//! or a cell library.
//!
//! A reader owns the aggregate that is being loaded. Events are handed to it
//! in the order of the stream; the first error stops the load, and what was
//! gathered until then is given up.
pub mod error;
pub mod event;
pub mod geometry;
pub mod layer;
pub mod library;
pub mod makro;
pub mod site;
pub mod technology;
pub mod utils;
pub mod via;
