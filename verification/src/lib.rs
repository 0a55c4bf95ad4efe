//! Approximates the pixel size of a Windows console from its size in character
//! cells and the DPI of its window.
//!
//! The library never talks to the console itself. A caller asks a resolver
//! what to query next, performs the query, and records the answer.

pub mod console;
pub mod resolve;
pub mod run;
pub mod size;

pub use crate::console::{ConsoleQuery, ConsoleReply, Observed, ScreenBuffer};
pub use crate::resolve::{get_size_of_the_font, get_size_of_the_terminal, Step};
pub use crate::size::{CellGrid, FontSize, TerminalError, TerminalSize};
