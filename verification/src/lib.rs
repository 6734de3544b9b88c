//! Close confirmation for a desktop window: a close request ends the
//! application only when it follows another one within two seconds.
//!
//! - [`window`] holds the timing rule and what follows from it.
//! - [`attempt`] holds the state that the requests leave behind.
//! - [`guard`] puts that state behind a lock and reads the clock.
//! - [`host`] says what the window's host has to do with each request.

pub mod window;
pub mod attempt;
pub mod guard;
pub mod host;
