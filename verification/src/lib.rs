//! Core state of a song-presentation tool: a session-fixed catalog of songs,
//! a user-curated selection queue with append and positional removal, and the
//! page state of the surrounding shell. The hosting user interface renders
//! from these values and calls back into them; it lives outside this crate.

pub mod page;
pub mod song;
pub mod selection;
