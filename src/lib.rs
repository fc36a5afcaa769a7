//! A music player's playback engine: a queue with repeat disciplines, the
//! decisions of the decoder loop and of the audio callback, and the values
//! that the player shares between its threads.
pub mod clock;
pub mod errors;
pub mod playback;
pub mod player;
pub mod queue;

