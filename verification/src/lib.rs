//! Terminal input and rendering logic for a GPU terminal widget: keyboard and
//! mouse escape-sequence encoding, colour tables, background-region merging
//! and the side-band state of the terminal core.

pub mod text;
pub mod mode;
pub mod keys;
pub mod terminal_core;
pub mod painter;
pub mod runs;
pub mod highlight;
pub mod colors;
pub mod url;
pub mod font;
pub mod ssh;
pub mod element;
pub mod pointer;
