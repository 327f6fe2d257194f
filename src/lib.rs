//! Simulation core of a "falling words" typing game: an edit buffer with a
//! cursor, a set of falling items, a spawn countdown and the mode machine
//! that drives them once per frame.

pub mod text_buffer;
pub mod keys;
pub mod falling;
pub mod scheduler;
pub mod random;
pub mod game;
