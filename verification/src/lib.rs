//! A terminal character-sheet viewer/editor library.
//!
//! The crate holds the data model of a tabletop character sheet, the
//! derived-statistics calculator (ability modifiers, saving throws, skill
//! views), the interaction state machine driving the editor screens and the
//! hit-point controls, the layout arithmetic for the dashboard, and the
//! sheet store's document format with a proved round trip. All of it is
//! verified; terminal drawing and file handling live outside the library
//! and talk to it through plain values.

pub mod codec;
pub mod derived;
pub mod geom;
pub mod numbers;
pub mod render;
pub mod sheet;
pub mod state;
