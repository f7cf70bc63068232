//! Verified core of an interactive browser for columnar, self-describing
//! tables: a typed value projector that renders a window of cell values as
//! text, and the navigation state machine that decides which window to show.

pub mod column;
pub mod nav;
pub mod project;
pub mod session;
pub mod text;

pub use crate::nav::App;
pub use crate::nav::CurrentScreen;
pub use crate::nav::CurrentlyEditing;
