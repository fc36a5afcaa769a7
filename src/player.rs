//! A queue that keeps its items in a public field and lets its cursor be set
//! freely, with the playlist, message and state types that go with it.
use vstd::prelude::*;
use std::path::PathBuf;
use std::time::Duration;
use rand::seq::SliceRandom;

use crate::queue::wrap_add;

pub use crate::errors::{PlayerRunningError, SeekError};

verus! {

#[verifier::external_type_specification]
#[verifier::external_body]
pub struct ExPathBuf(std::path::PathBuf);

/// Relies on `Path::exists`: asks the file system whether the path names
/// something. Nothing is promised of the answer.
#[verifier::external_body]
fn path_exists(path: &PathBuf) -> bool {
    path.exists()
}

#[verifier::external_type_specification]
#[verifier::external_body]
pub struct ExThreadRng(rand::rngs::ThreadRng);

/// Relies on rand's `SliceRandom::shuffle`, applied to `items[1..]`: it
/// permutes that part in place and leaves the first item alone.
#[verifier::external_body]
fn shuffle_after_first<T>(items: &mut Vec<T>, rng: &mut rand::rngs::ThreadRng)
    requires
        old(items)@.len() >= 1,
    ensures
        final(items)@.len() == old(items)@.len(),
        final(items)@[0] == old(items)@[0],
        final(items)@.subrange(1, final(items)@.len() as int).to_multiset() == old(
            items,
        )@.subrange(1, old(items)@.len() as int).to_multiset(),
{
    items[1..].shuffle(rng)
}

/// How a [`Queue`] iterates; see [`Queue::next`].
#[derive(PartialEq, Eq, Structural, Clone, Copy, Debug)]
pub enum RepeatMode {
    /// Iterate over the items continuously, looping back to the first one at the end.
    All,
    /// Repeat the current item.
    Single,
    /// Iterate once, returning nothing after the end.
    Off,
}

/// The position of the item that `next` and `peek` pick, given the number
/// of items, the cursor, the mode, and whether `next` has returned an item
/// since the cursor was placed.
pub open spec fn pick(len: int, index: int, mode: RepeatMode, advanced: bool) -> Option<int> {
    if mode == RepeatMode::Single {
        if index < len {
            Some(index)
        } else {
            None
        }
    } else {
        let i = if advanced {
            index + 1
        } else {
            index
        };
        if i < len {
            Some(i)
        } else if mode == RepeatMode::Off || len == 0 {
            None
        } else {
            Some(i % len)
        }
    }
}

/// The cursor after a call of `next`.
pub open spec fn cursor_after_next(len: int, index: int, mode: RepeatMode, advanced: bool) -> int {
    if mode == RepeatMode::Single {
        index
    } else {
        let i = if advanced {
            index + 1
        } else {
            index
        };
        if i < len || mode == RepeatMode::Off || len == 0 {
            i
        } else {
            i % len
        }
    }
}

/// A queue iterated by [`Queue::next`], which may be edited while it is
/// iterated: the repeat mode decides what comes next.
pub struct Queue<T> {
    pub items: Vec<T>,
    index: usize,
    pub repeat_mode: RepeatMode,
    has_advanced: bool,
}

impl<T> Default for Queue<T> {
    fn default() -> (q: Self)
        ensures
            q.elems() == Seq::<T>::empty(),
            q.cursor() == 0,
            q.mode() == RepeatMode::Off,
            !q.advanced(),
    {
        Queue::new(Vec::new(), 0, RepeatMode::Off)
    }
}

impl<T> Queue<T> {
    /// The cursor: the position of the item returned last.
    pub closed spec fn cursor(&self) -> int {
        self.index as int
    }

    /// The items.
    pub closed spec fn elems(&self) -> Seq<T> {
        self.items@
    }

    /// The repeat mode.
    pub closed spec fn mode(&self) -> RepeatMode {
        self.repeat_mode
    }

    /// Whether `next` returned an item since the cursor was last placed.
    pub closed spec fn advanced(&self) -> bool {
        self.has_advanced
    }

    /// The position that `next` or `peek` would pick now.
    pub open spec fn picked(&self) -> Option<int> {
        pick(self.elems().len() as int, self.cursor(), self.mode(), self.advanced())
    }

    /// Create a queue over `items` whose first `next` returns the item at `start_index`.
    pub fn new(items: Vec<T>, start_index: usize, repeat_mode: RepeatMode) -> (q: Self)
        ensures
            q.elems() == items@,
            q.cursor() == start_index,
            q.mode() == repeat_mode,
            !q.advanced(),
    {
        Queue { items, index: start_index, repeat_mode, has_advanced: false }
    }

    /// Return the next item and advance. The first call after creation,
    /// `skip` or `jump` returns the item under the cursor, whatever the mode.
    /// An empty queue returns nothing.
    pub fn next(&mut self) -> (r: Option<&T>)
        requires
            old(self).cursor() < usize::MAX,
        ensures
            final(self).elems() == old(self).elems(),
            final(self).mode() == old(self).mode(),
            final(self).cursor() == cursor_after_next(
                old(self).elems().len() as int,
                old(self).cursor(),
                old(self).mode(),
                old(self).advanced(),
            ),
            final(self).advanced() == (old(self).advanced() || (old(self).mode()
                != RepeatMode::Single && old(self).picked().is_some())),
            r.is_some() == old(self).picked().is_some(),
            r.is_some() ==> *r.unwrap() == old(self).elems()[old(self).picked().unwrap()],
    {
        let len = self.items.len();
        if self.repeat_mode == RepeatMode::Single {
            if self.index < len {
                return Some(&self.items[self.index]);
            } else {
                return None;
            }
        }
        if self.has_advanced {
            self.index = self.index + 1;
        }
        if self.index >= len {
            if self.repeat_mode == RepeatMode::Off || len == 0 {
                return None;
            }
            self.index = self.index % len;
        }
        self.has_advanced = true;
        Some(&self.items[self.index])
    }

    /// As [`Queue::next`], handing out the item for editing.
    pub fn next_mut(&mut self) -> (r: Option<&mut T>)
        requires
            old(self).cursor() < usize::MAX,
        ensures
            final(self).mode() == old(self).mode(),
            final(self).cursor() == cursor_after_next(
                old(self).elems().len() as int,
                old(self).cursor(),
                old(self).mode(),
                old(self).advanced(),
            ),
            final(self).advanced() == (old(self).advanced() || (old(self).mode()
                != RepeatMode::Single && old(self).picked().is_some())),
            r.is_some() == old(self).picked().is_some(),
            r.is_none() ==> final(self).elems() == old(self).elems(),
            r.is_some() ==> *r.unwrap() == old(self).elems()[old(self).picked().unwrap()]
                && final(self).elems() == old(self).elems().update(
                old(self).picked().unwrap(),
                *final(r.unwrap()),
            ),
    {
        let len = self.items.len();
        if self.repeat_mode == RepeatMode::Single {
            if self.index < len {
                return Some(&mut self.items[self.index]);
            } else {
                return None;
            }
        }
        if self.has_advanced {
            self.index = self.index + 1;
        }
        if self.index >= len {
            if self.repeat_mode == RepeatMode::Off || len == 0 {
                return None;
            }
            self.index = self.index % len;
        }
        self.has_advanced = true;
        Some(&mut self.items[self.index])
    }

    fn picked_index(&self) -> (r: Option<usize>)
        requires
            self.cursor() < usize::MAX,
        ensures
            r.is_some() == self.picked().is_some(),
            r.is_some() ==> r.unwrap() == self.picked().unwrap() && r.unwrap() < self.elems().len(),
    {
        let len = self.items.len();
        if self.repeat_mode == RepeatMode::Single {
            return if self.index < len {
                Some(self.index)
            } else {
                None
            };
        }
        let i = if self.has_advanced {
            self.index + 1
        } else {
            self.index
        };
        if i < len {
            Some(i)
        } else if self.repeat_mode == RepeatMode::Off || len == 0 {
            None
        } else {
            Some(i % len)
        }
    }

    /// The item that `next` would return now, if the queue is not changed
    /// until then. Does not advance.
    pub fn peek(&self) -> (r: Option<&T>)
        requires
            self.cursor() < usize::MAX,
        ensures
            r.is_some() == self.picked().is_some(),
            r.is_some() ==> *r.unwrap() == self.elems()[self.picked().unwrap()],
    {
        match self.picked_index() {
            Some(i) => Some(&self.items[i]),
            None => None,
        }
    }

    /// As [`Queue::peek`], handing out the item for editing.
    pub fn peek_mut(&mut self) -> (r: Option<&mut T>)
        requires
            old(self).cursor() < usize::MAX,
        ensures
            final(self).mode() == old(self).mode(),
            final(self).cursor() == old(self).cursor(),
            final(self).advanced() == old(self).advanced(),
            r.is_some() == old(self).picked().is_some(),
            r.is_none() ==> final(self).elems() == old(self).elems(),
            r.is_some() ==> *r.unwrap() == old(self).elems()[old(self).picked().unwrap()]
                && final(self).elems() == old(self).elems().update(
                old(self).picked().unwrap(),
                *final(r.unwrap()),
            ),
    {
        match self.picked_index() {
            Some(i) => Some(&mut self.items[i]),
            None => None,
        }
    }

    /// Change the repeat mode; items, cursor and history stay as they are.
    pub fn set_repeat_mode(&mut self, repeat_mode: RepeatMode)
        ensures
            final(self).elems() == old(self).elems(),
            final(self).cursor() == old(self).cursor(),
            final(self).advanced() == old(self).advanced(),
            final(self).mode() == repeat_mode,
    {
        self.repeat_mode = repeat_mode;
    }

    /// The cursor: the position of the item returned last.
    pub fn index(&self) -> (r: &usize)
        ensures
            *r == self.cursor(),
    {
        &self.index
    }

    /// The cursor, for setting by hand. `jump` and `skip` keep iteration in
    /// order; this does not.
    pub fn index_mut(&mut self) -> (r: &mut usize)
        ensures
            *r == old(self).cursor(),
            final(self).cursor() == *final(r),
            final(self).elems() == old(self).elems(),
            final(self).mode() == old(self).mode(),
            final(self).advanced() == old(self).advanced(),
    {
        &mut self.index
    }

    /// Shuffle the queue in place. The item under the cursor moves to the
    /// front, and the others are put in a random order behind it.
    pub fn shuffle(&mut self, rng: &mut rand::rngs::ThreadRng)
        requires
            old(self).cursor() < old(self).elems().len(),
        ensures
            final(self).elems().len() == old(self).elems().len(),
            final(self).elems()[0] == old(self).elems()[old(self).cursor()],
            final(self).elems().to_multiset() == old(self).elems().to_multiset(),
            final(self).cursor() == old(self).cursor(),
            final(self).mode() == old(self).mode(),
            final(self).advanced() == old(self).advanced(),
    {
        let index = self.index;
        if index != 0 {
            let ghost s = self.elems();
            let x = self.items.remove(index);
            self.items.insert(0, x);
            let y = self.items.remove(1);
            self.items.insert(index, y);
            proof {
                assert(self.elems() =~= s.update(0, s[index as int]).update(index as int, s[0]));
                lemma_swap_keeps_multiset(s, 0, index as int);
            }
        }
        let ghost swapped = self.elems();
        shuffle_after_first(&mut self.items, rng);
        proof {
            let n = swapped.len() as int;
            let t = self.elems();
            assert(swapped =~= seq![swapped[0]] + swapped.subrange(1, n));
            assert(t =~= seq![t[0]] + t.subrange(1, n));
            vstd::seq_lib::lemma_multiset_commutative(seq![swapped[0]], swapped.subrange(1, n));
            vstd::seq_lib::lemma_multiset_commutative(seq![t[0]], t.subrange(1, n));
        }
    }

    /// Skip `n` items: the next `next` returns the item `n` past the one
    /// returned last (or `n` past the cursor, if none was), wrapping around
    /// the end whatever the mode. Skipping twice is skipping the sum.
    pub fn skip(&mut self, n: usize)
        ensures
            final(self).elems() == old(self).elems(),
            final(self).mode() == old(self).mode(),
            !final(self).advanced(),
            final(self).cursor() == if old(self).elems().len() == 0 {
                0
            } else {
                (old(self).cursor() + n + if old(self).advanced() {
                    1int
                } else {
                    0
                }) % (old(self).elems().len() as int)
            },
    {
        let len = self.items.len();
        if len == 0 {
            self.jump(0);
        } else {
            let target = wrap_add(self.index, n, self.has_advanced, len);
            proof {
                vstd::arithmetic::div_mod::lemma_small_mod(target as nat, len as nat);
            }
            self.jump(target);
        }
    }

    /// Jump to the item at `n` (wrapped around the end): the next `next`
    /// returns it, whatever the mode.
    pub fn jump(&mut self, n: usize)
        ensures
            final(self).elems() == old(self).elems(),
            final(self).mode() == old(self).mode(),
            !final(self).advanced(),
            final(self).cursor() == if old(self).elems().len() == 0 {
                0
            } else {
                n as int % (old(self).elems().len() as int)
            },
    {
        self.index = if self.items.len() == 0 {
            0
        } else {
            n % self.items.len()
        };
        self.has_advanced = false;
    }
}

proof fn lemma_swap_keeps_multiset<T>(s: Seq<T>, i: int, j: int)
    requires
        0 <= i < s.len(),
        0 <= j < s.len(),
        i != j,
    ensures
        s.update(i, s[j]).update(j, s[i]).to_multiset() == s.to_multiset(),
{
    broadcast use vstd::multiset::group_multiset_axioms;

    let t = s.update(i, s[j]);
    vstd::seq_lib::to_multiset_update(s, i, s[j]);
    vstd::seq_lib::to_multiset_update(t, j, s[i]);
    s.to_multiset_ensures();
    assert(s.to_multiset().count(s[i]) > 0);
    assert(t.update(j, s[i]).to_multiset() =~= s.to_multiset());
}

impl<T> From<Vec<T>> for Queue<T> {
    fn from(items: Vec<T>) -> (q: Self) {
        Queue { items, index: 0, repeat_mode: RepeatMode::Off, has_advanced: false }
    }
}

impl<T> vstd::std_specs::convert::FromSpecImpl<Vec<T>> for Queue<T> {
    open spec fn obeys_from_spec() -> bool {
        true
    }

    closed spec fn from_spec(items: Vec<T>) -> Queue<T> {
        Queue { items, index: 0, repeat_mode: RepeatMode::Off, has_advanced: false }
    }
}

/// `Queue::from(items)` holds `items`, with the cursor on the first item, mode
/// `Off`, and no item returned yet.
pub proof fn lemma_from_items<T>(items: Vec<T>)
    ensures
        ({
            let q = <Queue<T> as vstd::std_specs::convert::FromSpec<Vec<T>>>::from_spec(items);
            q.elems() == items@ && q.cursor() == 0 && q.mode() == RepeatMode::Off && !q.advanced()
        }),
{
}

/// A playlist: a named folder of songs.
pub struct Playlist {
    name: String,
    path: PathBuf,
}

/// A playlist was asked for with a path that names nothing.
#[derive(Debug)]
pub struct InvalidPath(pub PathBuf);

impl Playlist {
    pub closed spec fn name_view(&self) -> Seq<char> {
        self.name@
    }

    pub closed spec fn path_value(&self) -> PathBuf {
        self.path
    }

    /// A playlist named `name` over the folder at `path`; fails when the
    /// file system does not know the path.
    pub fn new(name: String, path: PathBuf) -> (r: Result<Self, InvalidPath>)
        ensures
            r matches Ok(p) ==> p.name_view() == name@ && p.path_value() == path,
            r matches Err(e) ==> e.0 == path,
    {
        if !path_exists(&path) {
            return Err(InvalidPath(path));
        }
        Ok(Playlist { name, path })
    }

    pub fn name(&self) -> (r: &str)
        ensures
            r@ == self.name_view(),
    {
        self.name.as_str()
    }
}

/// Sent to the thread that plays the audio.
pub enum PlayerMessage {
    /// Stop the current song, which moves on to the next one.
    Stop,
    /// Pause playback; does nothing if already paused.
    Pause,
    /// Resume playback; does nothing if already playing.
    Resume,
    /// Seek to this position in the current song.
    Seek(Duration),
}

/// Where the player is in its life.
#[derive(Copy, Clone, Debug, PartialEq, Eq, Structural)]
pub enum PlayerState {
    /// `run` has not been called.
    NotStarted,
    /// The playing thread has finished.
    Finished,
    Paused,
    Playing,
}

} // verus!
