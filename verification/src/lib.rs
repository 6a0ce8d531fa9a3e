//! The core of a presence synchroniser: it turns what a tracking service
//! reports as currently being watched into the rich-presence status that a
//! chat client displays.
//!
//! Nothing in this library performs I/O.  It decides which request to make
//! next, what to show, and how to recover when the presence connection fails;
//! a driver performs each action and reports back what happened.

pub mod discord;
pub mod presence;
pub mod rating;
pub mod sync;
pub mod text;
pub mod timestamp;
pub mod trakt;
