//! The playback engine's own logic: songs and playlists, the position that
//! the decoder shares with the front end, the decisions of the decoder loop,
//! and the audio callback's handling of the device buffer.
use vstd::prelude::*;
use std::collections::VecDeque;
use std::path::PathBuf;
use std::sync::atomic::{AtomicU64, Ordering};
use std::time::Duration;
use vstd::arithmetic::div_mod::{lemma_fundamental_div_mod, lemma_fundamental_div_mod_converse};

pub use crate::errors::{OutOfBoundsError, PlayerRunningError, SeekError};
pub use crate::queue::{Queue, RepeatMode};

verus! {

#[verifier::external_type_specification]
#[verifier::external_body]
pub struct ExIoError(std::io::Error);

/// Relies on `PathBuf`'s `Clone`, which songs and playlists derive.
pub assume_specification[ <std::path::PathBuf as std::clone::Clone>::clone ](
    p: &std::path::PathBuf,
) -> std::path::PathBuf;

/// The time of timestamp `ts` in a time base of `numer / denom` seconds per
/// unit, as a count of whole milliseconds cut to 64 bits (beyond `u64::MAX`
/// milliseconds it wraps).
pub uninterp spec fn millis_at(numer: u32, denom: u32, ts: u64) -> u64;

/// Relies on symphonia's `TimeBase::calc_time`, and on the conversion of the
/// `Time` it returns into a `Duration`, read in whole milliseconds.
/// `TimeBase::new` panics on a zero numerator or denominator, and the
/// conversion panics when the seconds reach `u64::MAX`.
#[verifier::external_body]
fn timestamp_millis(numer: u32, denom: u32, ts: u64) -> (r: u64)
    requires
        numer > 0,
        denom > 0,
        (ts as int) * (numer as int) / (denom as int) < u64::MAX,
    ensures
        r == millis_at(numer, denom, ts),
{
    let time = symphonia::core::units::TimeBase::new(numer, denom).calc_time(ts);
    Duration::from(time).as_millis() as u64
}

/// Relies on `Path::canonicalize`: asks the file system for the absolute
/// form of the path. Nothing is promised of the answer.
#[verifier::external_body]
fn canonical_path(path: &PathBuf) -> Result<PathBuf, std::io::Error> {
    path.canonicalize()
}

/// A time base: `numer / denom` seconds per timestamp unit.
#[derive(Clone, Copy, Debug, PartialEq, Eq, Structural)]
pub struct TimeBase {
    pub numer: u32,
    pub denom: u32,
}

impl TimeBase {
    pub open spec fn wf(self) -> bool {
        self.numer > 0 && self.denom > 0
    }

    /// Timestamps whose time fits in the seconds that a `Duration` holds.
    pub open spec fn holds(self, ts: u64) -> bool {
        (ts as int) * (self.numer as int) / (self.denom as int) < u64::MAX
    }

    /// Whether the time of `ts` can be computed: the time base is valid and
    /// the time fits in the seconds that a `Duration` holds.
    pub fn fits(&self, ts: u64) -> (r: bool)
        ensures
            r == (self.wf() && self.holds(ts)),
    {
        if self.numer == 0 || self.denom == 0 {
            return false;
        }
        let a = ts as u128;
        let b = self.numer as u128;
        assert(a * b <= (u64::MAX as int) * (u32::MAX as int)) by (nonlinear_arith)
            requires
                0 <= a <= u64::MAX,
                0 <= b <= u32::MAX,
        {
        }
        let product: u128 = a * b;
        product / (self.denom as u128) < (u64::MAX as u128)
    }

    /// The time of `ts`, in whole milliseconds.
    pub fn millis(&self, ts: u64) -> (r: u64)
        requires
            self.wf(),
            self.holds(ts),
        ensures
            r == millis_at(self.numer, self.denom, ts),
    {
        timestamp_millis(self.numer, self.denom, ts)
    }
}

/// A playable song: its track id, title, file and length in milliseconds.
#[derive(Clone, Debug)]
pub struct Song {
    id: u32,
    title: String,
    path: PathBuf,
    duration: u64,
}

impl Song {
    pub closed spec fn id_spec(&self) -> u32 {
        self.id
    }

    pub closed spec fn title_view(&self) -> Seq<char> {
        self.title@
    }

    pub closed spec fn path_value(&self) -> PathBuf {
        self.path
    }

    pub closed spec fn duration_spec(&self) -> u64 {
        self.duration
    }

    /// A song of `duration` milliseconds.
    pub fn new(id: u32, title: String, path: PathBuf, duration: u64) -> (s: Self)
        ensures
            s.id_spec() == id,
            s.title_view() == title@,
            s.path_value() == path,
            s.duration_spec() == duration,
    {
        Song { id, title, path, duration }
    }

    /// A song whose track has `n_frames` frames in time base `time_base`:
    /// its length is the time of the end of its last frame.
    pub fn from_track(
        id: u32,
        title: String,
        path: PathBuf,
        time_base: TimeBase,
        n_frames: u64,
    ) -> (s: Self)
        requires
            time_base.wf(),
            time_base.holds(n_frames),
        ensures
            s.id_spec() == id,
            s.title_view() == title@,
            s.path_value() == path,
            s.duration_spec() == millis_at(time_base.numer, time_base.denom, n_frames),
    {
        let duration = time_base.millis(n_frames);
        Song::new(id, title, path, duration)
    }

    pub fn id(&self) -> (r: &u32)
        ensures
            *r == self.id_spec(),
    {
        &self.id
    }

    pub fn title(&self) -> (r: &str)
        ensures
            r@ == self.title_view(),
    {
        self.title.as_str()
    }

    pub fn path(&self) -> (r: &PathBuf)
        ensures
            *r == self.path_value(),
    {
        &self.path
    }

    /// The length of the song, in milliseconds.
    pub fn duration(&self) -> (r: u64)
        ensures
            r == self.duration_spec(),
    {
        self.duration
    }
}

/// A named folder of songs, with an optional icon.
#[derive(Clone, Debug)]
pub struct Playlist {
    name: String,
    path: PathBuf,
    icon_path: Option<PathBuf>,
}

impl Playlist {
    pub closed spec fn name_view(&self) -> Seq<char> {
        self.name@
    }

    pub closed spec fn path_value(&self) -> PathBuf {
        self.path
    }

    pub closed spec fn icon_value(&self) -> Option<PathBuf> {
        self.icon_path
    }

    /// A playlist over the folder at `path`, which is stored in its absolute
    /// form; fails when the file system cannot resolve the path.
    pub fn new(path: PathBuf, name: String, icon_path: Option<PathBuf>) -> (r: Result<
        Self,
        std::io::Error,
    >)
        ensures
            r matches Ok(p) ==> p.name_view() == name@ && p.icon_value() == icon_path,
    {
        match canonical_path(&path) {
            Ok(path) => Ok(Playlist { name, path, icon_path }),
            Err(e) => Err(e),
        }
    }

    /// A playlist from parts already resolved, as a settings file holds them.
    pub fn from_parts(name: String, path: PathBuf, icon_path: Option<PathBuf>) -> (p: Self)
        ensures
            p.name_view() == name@,
            p.path_value() == path,
            p.icon_value() == icon_path,
    {
        Playlist { name, path, icon_path }
    }

    pub fn name(&self) -> (r: &str)
        ensures
            r@ == self.name_view(),
    {
        self.name.as_str()
    }

    pub fn path(&self) -> (r: &PathBuf)
        ensures
            *r == self.path_value(),
    {
        &self.path
    }

    pub fn icon_path(&self) -> (r: Option<&PathBuf>)
        ensures
            r.is_some() == self.icon_value().is_some(),
            r.is_some() ==> *r.unwrap() == self.icon_value().unwrap(),
    {
        match &self.icon_path {
            Some(p) => Some(p),
            None => None,
        }
    }
}

/// The playlists of the settings file, in order.
#[derive(Clone, Debug)]
pub struct Playlists {
    playlists: Vec<Playlist>,
}

impl Playlists {
    pub closed spec fn view_seq(&self) -> Seq<Playlist> {
        self.playlists@
    }

    pub fn new(playlists: Vec<Playlist>) -> (r: Self)
        ensures
            r.view_seq() == playlists@,
    {
        Playlists { playlists }
    }

    pub fn as_slice(&self) -> (r: &[Playlist])
        ensures
            r@ == self.view_seq(),
    {
        self.playlists.as_slice()
    }

    pub fn push(&mut self, playlist: Playlist)
        ensures
            final(self).view_seq() == old(self).view_seq().push(playlist),
    {
        self.playlists.push(playlist);
    }
}

/// Where the player is in its life.
#[derive(Copy, Clone, Debug, PartialEq, Eq, Structural)]
pub enum PlayerState {
    Paused,
    Playing,
    Finished,
    NotStarted,
}

impl PlayerState {
    /// The decoder thread is alive: paused or playing.
    pub open spec fn running(self) -> bool {
        self == PlayerState::Paused || self == PlayerState::Playing
    }

    pub fn is_running(&self) -> (r: bool)
        ensures
            r == self.running(),
    {
        match *self {
            PlayerState::Paused | PlayerState::Playing => true,
            _ => false,
        }
    }

    pub fn is_paused(&self) -> (r: bool)
        ensures
            r == (*self == PlayerState::Paused),
    {
        match *self {
            PlayerState::Paused => true,
            _ => false,
        }
    }

    /// The state that `run` moves to: `Paused` until the first song starts.
    /// Fails while the decoder is running.
    pub fn start(&self) -> (r: Result<PlayerState, PlayerRunningError>)
        ensures
            self.running() ==> r == Err::<PlayerState, PlayerRunningError>(PlayerRunningError),
            !self.running() ==> r == Ok::<PlayerState, PlayerRunningError>(PlayerState::Paused),
    {
        if self.is_running() {
            Err(PlayerRunningError)
        } else {
            Ok(PlayerState::Paused)
        }
    }
}

/// A command from the front end to the decoder.
pub enum PlayerMessage {
    /// Stop the current song; the decoder moves on to the next one.
    Stop,
    /// Seek to this position in the current song.
    Seek(Duration),
    /// End playback.
    Quit,
}

/// A notice from the decoder to the front end.
pub enum PlayerUpdate {
    /// The queue moved: `song` is the new song, or `None` at the end of the
    /// queue; `index` is the queue's cursor before it moved.
    SongChange { song: Option<Song>, index: usize },
    /// The audio device failed; the stream was rebuilt and playback paused.
    DeviceDisconnect,
    /// Reserved for changes of state.
    StateChange,
}

impl PlayerUpdate {
    pub fn song_change(index: usize, song: Option<Song>) -> (r: PlayerUpdate)
        ensures
            r == (PlayerUpdate::SongChange { song, index }),
    {
        PlayerUpdate::SongChange { song, index }
    }
}

/// A count of milliseconds that one thread writes and others read.
#[derive(Debug)]
pub struct AtomicMilliseconds(AtomicU64);

impl AtomicMilliseconds {
    pub fn new(millis: u64) -> (r: Self) {
        AtomicMilliseconds(AtomicU64::new(millis))
    }

    /// The value last stored, by this thread or another.
    pub fn millis(&self) -> u64 {
        self.0.load(Ordering::Relaxed)
    }

    pub fn set_millis(&self, millis: u64) {
        self.0.store(millis, Ordering::Relaxed)
    }
}

/// A volume shared between threads: the percentage chosen and the sample
/// multiplier derived from it, each held as the bit pattern of a 64-bit
/// float. Readers in the audio callback use only the multiplier.
#[derive(Debug)]
pub struct AtomicVolume {
    percent: AtomicU64,
    multiplier: AtomicU64,
}

impl AtomicVolume {
    /// A volume from the bit patterns of its percentage and multiplier.
    pub fn from_bits(percent: u64, multiplier: u64) -> (r: Self) {
        AtomicVolume { percent: AtomicU64::new(percent), multiplier: AtomicU64::new(multiplier) }
    }

    /// The bit pattern of the percentage last stored.
    pub fn percent_bits(&self) -> u64 {
        self.percent.load(Ordering::Relaxed)
    }

    /// The bit pattern of the multiplier last stored.
    pub fn multiplier_bits(&self) -> u64 {
        self.multiplier.load(Ordering::Relaxed)
    }

    /// Copies `other` into this volume: the percentage first, then the
    /// multiplier.
    pub fn set_volume(&self, other: &Self) {
        let percent = other.percent.load(Ordering::Acquire);
        let multiplier = other.multiplier.load(Ordering::Acquire);
        self.percent.store(percent, Ordering::Relaxed);
        self.multiplier.store(multiplier, Ordering::Relaxed);
    }
}

/// What the player does on `rewind`.
#[derive(Copy, Clone, Debug, PartialEq, Eq, Structural)]
pub enum Rewind {
    /// Seek to the start of the current song.
    ToStart,
    /// Step the queue back by one and stop the current song.
    ToPrevious,
}

/// How long a song must have played before `rewind` goes back to its start
/// rather than to the previous song, in milliseconds.
pub const REWIND_TOLERANCE_MS: u64 = 3000;

/// Chooses what `rewind` does: back to the start of the current song once it
/// has played for more than three seconds, else to the previous song.
pub fn rewind_choice(time_playing_ms: u64, has_current: bool) -> (r: Rewind)
    ensures
        r == (if time_playing_ms > REWIND_TOLERANCE_MS && has_current {
            Rewind::ToStart
        } else {
            Rewind::ToPrevious
        }),
{
    if time_playing_ms > REWIND_TOLERANCE_MS && has_current {
        Rewind::ToStart
    } else {
        Rewind::ToPrevious
    }
}

/// `rewind` on the queue: when the song has played for more than three
/// seconds and the queue has a current song, the queue is left alone (the
/// player then seeks to the start); otherwise the queue steps back by one,
/// wrapping from the first item to the last (the player then stops the song).
pub fn rewind_step<T>(queue: &mut Queue<T>, time_playing_ms: u64) -> (r: Rewind)
    requires
        old(queue)@.wf(),
    ensures
        r == (if time_playing_ms > REWIND_TOLERANCE_MS && old(queue)@.current_pos().is_some() {
            Rewind::ToStart
        } else {
            Rewind::ToPrevious
        }),
        r == Rewind::ToStart ==> final(queue)@ == old(queue)@,
        r == Rewind::ToPrevious ==> final(queue)@ == old(queue)@.placed(
            old(queue)@.rewind_index(1),
        ),
        final(queue)@.wf(),
{
    let has_current = queue.current().is_some();
    let r = rewind_choice(time_playing_ms, has_current);
    if let Rewind::ToPrevious = r {
        queue.rewind(1);
    }
    r
}

/// Checks a seek to `to_ms` against the length of the current song, if any.
pub fn check_seek(current: Option<&Song>, to_ms: u64) -> (r: Result<(), SeekError>)
    ensures
        current.is_none() ==> r == Err::<(), SeekError>(SeekError::NoCurrentSong),
        current.is_some() && to_ms > current.unwrap().duration_spec() ==> r == Err::<
            (),
            SeekError,
        >(SeekError::OutOfRange { to: to_ms, max: current.unwrap().duration_spec() }),
        current.is_some() && to_ms <= current.unwrap().duration_spec() ==> r is Ok,
{
    match current {
        None => Err(SeekError::NoCurrentSong),
        Some(song) => {
            let max = song.duration();
            if to_ms > max {
                Err(SeekError::OutOfRange { to: to_ms, max })
            } else {
                Ok(())
            }
        },
    }
}

/// What the decoder does with a command.
pub enum CommandAction {
    /// Leave both loops: playback ends.
    Quit,
    /// Leave the song loop: the next song starts.
    NextSong,
    /// Seek the reader to this position.
    Seek(Duration),
}

/// Maps a command to the decoder's reaction.
pub fn command_action(message: PlayerMessage) -> (r: CommandAction)
    ensures
        message is Quit ==> r is Quit,
        message is Stop ==> r is NextSong,
        message matches PlayerMessage::Seek(d) ==> r == CommandAction::Seek(d),
{
    match message {
        PlayerMessage::Quit => CommandAction::Quit,
        PlayerMessage::Stop => CommandAction::NextSong,
        PlayerMessage::Seek(d) => CommandAction::Seek(d),
    }
}

/// What came of a seek request on the reader.
#[derive(Copy, Clone, Debug, PartialEq, Eq, Structural)]
pub enum SeekOutcome {
    /// The reader now stands at this timestamp.
    Reached(u64),
    /// The reader hit the end of its input: an I/O error while seeking.
    EndOfInput,
    /// Any other error.
    Failed,
}

/// The decoder's reaction to a seek outcome.
#[derive(Copy, Clone, Debug, PartialEq, Eq, Structural)]
pub enum SeekReaction {
    /// Publish this position, in milliseconds, and reset the decoder.
    Resume(u64),
    /// Skip to the next song.
    NextSong,
    /// Give up: the error cannot be recovered from.
    Fatal,
}

/// What the decoder does after a seek: publish the position reached and
/// reset the decoder, skip to the next song at the end of the input, or give
/// up on any other error.
pub fn seek_reaction(outcome: SeekOutcome, time_base: TimeBase) -> (r: SeekReaction)
    requires
        outcome matches SeekOutcome::Reached(ts) ==> time_base.wf() && time_base.holds(ts),
    ensures
        outcome matches SeekOutcome::Reached(ts) ==> r == SeekReaction::Resume(
            millis_at(time_base.numer, time_base.denom, ts),
        ),
        outcome is EndOfInput ==> r is NextSong,
        outcome is Failed ==> r is Fatal,
{
    match outcome {
        SeekOutcome::Reached(ts) => SeekReaction::Resume(time_base.millis(ts)),
        SeekOutcome::EndOfInput => SeekReaction::NextSong,
        SeekOutcome::Failed => SeekReaction::Fatal,
    }
}

/// What the decoder does to the output stream when it reads the state.
#[derive(Copy, Clone, Debug, PartialEq, Eq, Structural)]
pub struct StreamControl {
    /// Whether the decoder plays after this tick.
    pub playing: bool,
    /// Pause the output stream.
    pub pause_stream: bool,
    /// Resume the output stream.
    pub resume_stream: bool,
}

/// What the decoder does on reading the shared state: a playing decoder that reads `Paused` pauses the
/// stream; a paused one that reads `Playing` resumes it. A decoder that is
/// not playing afterwards sleeps and decodes nothing.
pub fn stream_control(playing: bool, state: PlayerState) -> (r: StreamControl)
    ensures
        r.pause_stream == (playing && state == PlayerState::Paused),
        r.resume_stream == (!playing && state == PlayerState::Playing),
        r.playing == (if playing {
            state != PlayerState::Paused
        } else {
            state == PlayerState::Playing
        }),
{
    if playing {
        if state == PlayerState::Paused {
            StreamControl { playing: false, pause_stream: true, resume_stream: false }
        } else {
            StreamControl { playing: true, pause_stream: false, resume_stream: false }
        }
    } else if state == PlayerState::Playing {
        StreamControl { playing: true, pause_stream: false, resume_stream: true }
    } else {
        StreamControl { playing: false, pause_stream: false, resume_stream: false }
    }
}

/// The sample rate that the first song is assumed to have, before any song
/// has told its own.
pub const INITIAL_SAMPLE_RATE: u32 = 44100;

/// The decoder's memory across songs: the sample rate last published to the
/// audio callback, and the time base and position of the current song.
#[derive(Copy, Clone, Debug)]
pub struct DecoderCore {
    pub last_sample_rate: u32,
    pub time_base: TimeBase,
    pub time_playing: u64,
}

impl DecoderCore {
    pub fn new() -> (r: Self)
        ensures
            r.last_sample_rate == INITIAL_SAMPLE_RATE,
            r.time_playing == 0,
            r.time_base.wf(),
    {
        DecoderCore {
            last_sample_rate: INITIAL_SAMPLE_RATE,
            time_base: TimeBase { numer: 1, denom: INITIAL_SAMPLE_RATE },
            time_playing: 0,
        }
    }

    /// A song starts: its position is 0, and when its sample rate differs
    /// from the one last published, the new rate is returned for publishing
    /// before any of its samples are.
    pub fn start_song(&mut self, sample_rate: u32, time_base: TimeBase) -> (publish: Option<u32>)
        ensures
            final(self).time_playing == 0,
            final(self).time_base == time_base,
            final(self).last_sample_rate == sample_rate,
            publish == (if sample_rate != old(self).last_sample_rate {
                Some(sample_rate)
            } else {
                None::<u32>
            }),
    {
        self.time_playing = 0;
        self.time_base = time_base;
        if sample_rate != self.last_sample_rate {
            self.last_sample_rate = sample_rate;
            Some(sample_rate)
        } else {
            None
        }
    }

    /// A packet with timestamp `ts` was decoded: the position becomes its time.
    pub fn on_packet(&mut self, ts: u64) -> (millis: u64)
        requires
            old(self).time_base.wf(),
            old(self).time_base.holds(ts),
        ensures
            millis == millis_at(old(self).time_base.numer, old(self).time_base.denom, ts),
            *final(self) == (DecoderCore { time_playing: millis, ..*old(self) }),
    {
        let millis = self.time_base.millis(ts);
        self.time_playing = millis;
        millis
    }

    /// A seek came back with `outcome`; on success the position becomes the
    /// time of the timestamp reached.
    pub fn on_seek(&mut self, outcome: SeekOutcome) -> (r: SeekReaction)
        requires
            outcome matches SeekOutcome::Reached(ts) ==> old(self).time_base.wf()
                && old(self).time_base.holds(ts),
        ensures
            r == (match outcome {
                SeekOutcome::Reached(ts) => SeekReaction::Resume(
                    millis_at(old(self).time_base.numer, old(self).time_base.denom, ts),
                ),
                SeekOutcome::EndOfInput => SeekReaction::NextSong,
                SeekOutcome::Failed => SeekReaction::Fatal,
            }),
            final(self).time_base == old(self).time_base,
            final(self).last_sample_rate == old(self).last_sample_rate,
            final(self).time_playing == (match r {
                SeekReaction::Resume(m) => m,
                _ => old(self).time_playing,
            }),
    {
        let r = seek_reaction(outcome, self.time_base);
        if let SeekReaction::Resume(m) = r {
            self.time_playing = m;
        }
        r
    }
}

/// How many decoded frames go straight into the ring, which has `vacant`
/// free slots, out of `available`: the decoder fills it until two slots are
/// left, and keeps the rest for later.
pub fn frames_to_ring(vacant: usize, available: usize) -> (r: usize)
    ensures
        r <= available,
        vacant > 2 ==> r == (if available < vacant - 2 {
            available
        } else {
            (vacant - 2) as usize
        }),
        vacant <= 2 ==> r == 0,
{
    if vacant <= 2 {
        0
    } else if available < vacant - 2 {
        available
    } else {
        vacant - 2
    }
}

/// How many frames held back from earlier packets go into the ring, which
/// has `vacant` free slots: as many as fit.
pub fn backlog_to_ring(vacant: usize, backlog: usize) -> (r: usize)
    ensures
        r == (if backlog < vacant {
            backlog
        } else {
            vacant
        }),
{
    if backlog < vacant {
        backlog
    } else {
        vacant
    }
}

/// The number of frames of a device buffer of `len` slots, each frame
/// spanning `channel_factor` slots (the last one may be cut short).
pub fn frames_for(len: usize, channel_factor: usize) -> (r: usize)
    requires
        channel_factor > 0,
    ensures
        r == frame_count(len as int, channel_factor as int),
{
    let whole = len / channel_factor;
    if len % channel_factor == 0 {
        proof {
            lemma_frame_count_step(len as int, channel_factor as int);
        }
        whole
    } else {
        proof {
            lemma_frame_count_inside(len as int, channel_factor as int);
        }
        whole + 1
    }
}

/// How many stereo frames the audio callback takes from the ring in one
/// round: all that the device buffer asks for when the rates match, else
/// what the resampler's next block still lacks.
pub fn frames_wanted(bypass: bool, data_len: usize, input_frames_next: usize, buffered: usize) -> (r:
    usize)
    ensures
        bypass ==> r == data_len,
        !bypass ==> r == (if buffered < input_frames_next {
            (input_frames_next - buffered) as usize
        } else {
            0
        }),
{
    if bypass {
        data_len
    } else if buffered < input_frames_next {
        input_frames_next - buffered
    } else {
        0
    }
}

/// How many silent frames complete the resampler's next block when the
/// ring ran short, so that an underrun never stalls the device.
pub fn padding_frames(input_frames_next: usize, buffered: usize) -> (r: usize)
    ensures
        buffered + r >= input_frames_next,
        buffered >= input_frames_next ==> r == 0,
        buffered < input_frames_next ==> buffered + r == input_frames_next,
{
    if buffered < input_frames_next {
        input_frames_next - buffered
    } else {
        0
    }
}

/// The resampler is bypassed exactly when the rates agree.
pub fn bypass_resampler(rate_in: u32, rate_out: u32) -> (r: bool)
    ensures
        r == (rate_in == rate_out),
{
    rate_in == rate_out
}

/// What the device buffer holds after the callback wrote it: slot `k` belongs
/// to frame `k / channel_factor`, which takes the next sample if one is left
/// and device silence otherwise.
pub open spec fn written<T>(samples: Seq<T>, len: int, channel_factor: int, silence: T) -> Seq<T> {
    Seq::new(
        len as nat,
        |k: int|
            if k / channel_factor < samples.len() {
                samples[k / channel_factor]
            } else {
                silence
            },
    )
}

/// The number of frames of a device buffer of `len` slots.
pub open spec fn frame_count(len: int, channel_factor: int) -> int {
    (len + channel_factor - 1) / channel_factor
}

/// When no sample is left, the callback fills the whole device buffer with
/// device silence.
pub proof fn lemma_underrun_is_silence<T>(len: nat, channel_factor: int, silence: T)
    requires
        channel_factor > 0,
    ensures
        written(Seq::<T>::empty(), len as int, channel_factor, silence) == Seq::new(
            len,
            |k: int| silence,
        ),
{
    assert(written(Seq::<T>::empty(), len as int, channel_factor, silence) =~= Seq::new(
        len,
        |k: int| silence,
    ));
}

/// Writes the device buffer: each frame of `channel_factor` slots takes the
/// next sample from `samples` and repeats it in every slot; once `samples`
/// runs dry, the rest of the buffer is `silence`. Takes exactly one sample
/// per frame that got one, and none past the buffer's end.
pub fn write_audio<T: Copy>(
    data: &mut [T],
    samples: &mut VecDeque<T>,
    channel_factor: usize,
    silence: T,
)
    requires
        channel_factor > 0,
    ensures
        final(data)@ == written(old(samples)@, old(data)@.len() as int, channel_factor as int, silence),
        final(samples)@ == old(samples)@.skip(
            if frame_count(old(data)@.len() as int, channel_factor as int) < old(samples)@.len() {
                frame_count(old(data)@.len() as int, channel_factor as int)
            } else {
                old(samples)@.len() as int
            },
        ),
{
    let ghost s0 = samples@;
    let ghost d0 = data@;
    let len = data.len();
    let ghost cf = channel_factor as int;
    let mut k: usize = 0;
    let mut value = silence;
    let ghost mut taken: int = 0;
    proof {
        lemma_frame_count_step(0, cf);
    }
    while k < len
        invariant
            0 <= k <= len,
            len == data@.len(),
            data@.len() == d0.len(),
            cf == channel_factor as int,
            cf > 0,
            taken == (if frame_count(k as int, cf) < s0.len() {
                frame_count(k as int, cf)
            } else {
                s0.len() as int
            }),
            samples@ == s0.skip(taken),
            k > 0 ==> value == (if (k as int - 1) / cf < s0.len() {
                s0[(k as int - 1) / cf]
            } else {
                silence
            }),
            forall|j: int|
                0 <= j < k ==> #[trigger] data@[j] == (if j / cf < s0.len() {
                    s0[j / cf]
                } else {
                    silence
                }),
        decreases len - k,
    {
        if k % channel_factor == 0 {
            proof {
                lemma_frame_count_step(k as int, cf);
            }
            value = match samples.pop_front() {
                Some(v) => v,
                None => silence,
            };
            proof {
                if taken < s0.len() {
                    taken = taken + 1;
                }
            }
        } else {
            proof {
                lemma_frame_count_inside(k as int, cf);
            }
        }
        data[k] = value;
        k = k + 1;
    }
    proof {
        assert(data@ =~= written(s0, d0.len() as int, cf, silence));
    }
}

proof fn lemma_frame_count_step(k: int, cf: int)
    requires
        k >= 0,
        cf > 0,
        k % cf == 0,
    ensures
        frame_count(k, cf) == k / cf,
        frame_count(k + 1, cf) == k / cf + 1,
{
    lemma_fundamental_div_mod(k, cf);
    let q = k / cf;
    assert(k + cf - 1 == q * cf + (cf - 1)) by (nonlinear_arith)
        requires
            k == cf * q,
    ;
    lemma_fundamental_div_mod_converse(k + cf - 1, cf, q, cf - 1);
    assert(k + 1 + cf - 1 == (q + 1) * cf + 0) by (nonlinear_arith)
        requires
            k == cf * q,
    ;
    lemma_fundamental_div_mod_converse(k + 1 + cf - 1, cf, q + 1, 0);
}

proof fn lemma_frame_count_inside(k: int, cf: int)
    requires
        k >= 0,
        cf > 0,
        k % cf != 0,
    ensures
        frame_count(k + 1, cf) == frame_count(k, cf),
        frame_count(k, cf) == k / cf + 1,
        k / cf == (k - 1) / cf,
{
    lemma_fundamental_div_mod(k, cf);
    let q = k / cf;
    let r = k % cf;
    assert(k + cf - 1 == (q + 1) * cf + (r - 1)) by (nonlinear_arith)
        requires
            k == cf * q + r,
    ;
    lemma_fundamental_div_mod_converse(k + cf - 1, cf, q + 1, r - 1);
    assert(k + 1 + cf - 1 == (q + 1) * cf + r) by (nonlinear_arith)
        requires
            k == cf * q + r,
    ;
    lemma_fundamental_div_mod_converse(k + 1 + cf - 1, cf, q + 1, r);
    assert(k - 1 == q * cf + (r - 1)) by (nonlinear_arith)
        requires
            k == cf * q + r,
    ;
    lemma_fundamental_div_mod_converse(k - 1, cf, q, r - 1);
}

} // verus!
