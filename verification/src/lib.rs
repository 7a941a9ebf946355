//! A terminal interface for searching videos: a search field on top of a
//! list of results, driven by the keyboard in two modes.
//!
//! - [`event`]: the events of the terminal as plain values.
//! - [`input`]: the search field, a line of text with a cursor.
//! - [`layout`]: the four regions of a frame.
//! - [`frame`]: what a frame shows in each region.
//! - [`app`]: the state of the application, what an event does to it, and
//!   the frame that shows it.
//!
//! Every function is verified against its contract. The search field is
//! edited by `tui_input` and the regions are split off by `ratatui`; what is
//! taken from them unproved is stated where they are called.

pub mod app;
pub mod event;
pub mod frame;
pub mod input;
pub mod layout;
