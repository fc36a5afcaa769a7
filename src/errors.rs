use vstd::prelude::*;

verus! {

/// A value outside the range that an operation accepts.
#[derive(Clone, Copy, Debug, PartialEq, Eq)]
pub enum OutOfBoundsError<T> {
    /// The value is below the smallest accepted value.
    Low { value: T, min: T },
    /// The value is above the largest accepted value.
    High { value: T, max: T },
    /// The value lies outside `min..=max`.
    Range { value: T, min: T, max: T },
}

/// Why a seek request was refused. Times are in milliseconds.
#[derive(Clone, Copy, Debug, PartialEq, Eq)]
pub enum SeekError {
    /// The requested position lies past the end of the current song.
    OutOfRange { to: u64, max: u64 },
    /// No song is current, so there is nothing to seek in.
    NoCurrentSong,
}

/// `run` was called on a player whose decoder is already running.
#[derive(Clone, Copy, Debug, PartialEq, Eq)]
pub struct PlayerRunningError;

} // verus!
