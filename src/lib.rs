//! The state and decisions of a file viewer: which file is on display, the
//! recently-used list, the status line for each event, and what the window
//! shows next. Loading files, dialogs and the window itself stay with the
//! caller, which hands this library plain values.

pub mod decimal;
pub mod recents;
pub mod state;
pub mod text;
pub mod viewer;
