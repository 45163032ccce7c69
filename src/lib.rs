//! A typing trainer's session engine: lines of text are presented one at a
//! time and retyped character by character, with each keystroke recorded and
//! classified against the line being practised.

pub mod laws;
pub mod loader;
pub mod render;
pub mod session;

pub use render::{CharStatus, Screen, ScreenView};
pub use session::{Action, App, SessionView};
