//! Verified core of a Slint backend that draws the user interface in a terminal with **sixel**
//! graphics.
//!
//! A program around this library owns the terminal and the window. It asks the terminal for its
//! size and for events, lets the window draw into memory and writes to the terminal. Everything in
//! between is decided here:
//!
//! - [`geometry`]: how large the image is, and where in it the pointer is;
//! - [`keys`], [`modifiers`], [`events`]: what the terminal reports and what the window is told;
//! - [`translate`]: which window events a terminal event becomes;
//! - [`delivery`], [`held`]: that everything reaches the window and no key is left down;
//! - [`palette`]: which numbers the colours of an image get;
//! - [`frame`]: how pixels become the text that draws them;
//! - [`backend`]: the state that is kept between events and frames;
//! - [`queue`]: jobs handed to the event loop by other threads;
//! - [`event_loop`]: in which order all of this happens.

pub mod backend;
pub mod delivery;
pub mod event_loop;
pub mod events;
pub mod frame;
pub mod geometry;
pub mod held;
pub mod keys;
pub mod modifiers;
pub mod palette;
pub mod queue;
pub mod translate;
