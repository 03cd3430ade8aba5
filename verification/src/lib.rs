//! Core logic of a terminal text-file pager: the key-event state machine,
//! the scroll-window computation, and the line handling that decides which
//! slice of the loaded file is visible.
//!
//! All terminal, file-system and drawing work lives outside this crate; the
//! functions here are pure state transitions with full contracts.

pub mod laws;
pub mod scroll;
pub mod session;
pub mod text;
