//! A personal, single-user issue tracker.
//!
//! The heart of the crate is an interactive session engine: a mode-based
//! input state machine driving a record store of tracked issues, with a
//! session layer that guarantees every mutation is persisted before the
//! next render. A one-shot command surface drives the same store
//! non-interactively.

pub mod cli;
pub mod engine;
pub mod item;
pub mod render;
pub mod session;
pub mod store;
pub mod text;
