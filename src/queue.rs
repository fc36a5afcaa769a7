use vstd::prelude::*;
use vstd::arithmetic::div_mod::{
    lemma_add_mod_noop, lemma_add_mod_noop_right, lemma_mod_add_multiples_vanish, lemma_mod_self_0,
    lemma_small_mod,
};

use crate::errors::OutOfBoundsError;

verus! {

/// Controls what [`Queue::next_item`] returns.
#[derive(Copy, Clone, Debug, PartialEq, Eq, Structural)]
pub enum RepeatMode {
    /// The queue does not repeat: once past the end, `next_item` returns `None`.
    Off,
    /// The queue returns the current item on every call.
    Single,
    /// The queue wraps around to the first item after the last one.
    All,
}

/// The mode that follows `m` in the cycle All => Single => Off => All.
pub open spec fn mode_after(m: RepeatMode) -> RepeatMode {
    match m {
        RepeatMode::All => RepeatMode::Single,
        RepeatMode::Single => RepeatMode::Off,
        RepeatMode::Off => RepeatMode::All,
    }
}

impl RepeatMode {
    /// Returns the next repeat mode in the cycle: All => Single => Off => All.
    pub fn next(&self) -> (r: Self)
        ensures
            r == mode_after(*self),
    {
        match *self {
            RepeatMode::All => RepeatMode::Single,
            RepeatMode::Single => RepeatMode::Off,
            RepeatMode::Off => RepeatMode::All,
        }
    }

    /// The short name under which the mode is shown: "off", "one" or "all".
    pub fn as_str(&self) -> (r: &'static str)
        ensures
            *self == RepeatMode::Off ==> r@ == "off"@,
            *self == RepeatMode::Single ==> r@ == "one"@,
            *self == RepeatMode::All ==> r@ == "all"@,
    {
        proof {
            reveal_strlit("off");
            reveal_strlit("one");
            reveal_strlit("all");
        }
        match *self {
            RepeatMode::Off => "off",
            RepeatMode::Single => "one",
            RepeatMode::All => "all",
        }
    }
}

/// The abstract state of a [`Queue`]: its items, its cursor, its repeat mode,
/// and whether `next_item` was called since the cursor was last placed.
pub struct QueueView<T> {
    pub items: Seq<T>,
    pub index: int,
    pub mode: RepeatMode,
    pub has_advanced: bool,
}

/// The item at `pos`, if there is one.
pub open spec fn item_at<T>(items: Seq<T>, pos: Option<int>) -> Option<T> {
    match pos {
        Some(i) => Some(items[i]),
        None => None,
    }
}

impl<T> QueueView<T> {
    pub open spec fn len(self) -> int {
        self.items.len() as int
    }

    /// The cursor never passes the end of the items.
    pub open spec fn wf(self) -> bool {
        0 <= self.index <= self.len()
    }

    /// The position of the current item, if the cursor is on one.
    pub open spec fn current_pos(self) -> Option<int> {
        if 0 <= self.index < self.len() {
            Some(self.index)
        } else {
            None
        }
    }

    /// Where the cursor stands after a call of `next_item` on a non-empty queue.
    /// Only a queue that has advanced moves: `Off` by one step until it
    /// passes the end, `All` by one step with a wrap to the first item.
    /// `Single` never moves, and neither does a cursor just placed.
    pub open spec fn next_index(self) -> int {
        if !self.has_advanced || self.mode == RepeatMode::Single {
            self.index
        } else if self.mode == RepeatMode::Off {
            if self.index < self.len() {
                self.index + 1
            } else {
                self.index
            }
        } else if self.index + 1 < self.len() {
            self.index + 1
        } else {
            0
        }
    }

    /// The state after one call of `next_item`.
    pub open spec fn after_next(self) -> QueueView<T> {
        if self.len() == 0 {
            self
        } else {
            QueueView {
                items: self.items,
                index: self.next_index(),
                mode: self.mode,
                has_advanced: true,
            }
        }
    }

    /// The position of the item that one call of `next_item` returns, if any.
    pub open spec fn next_pos(self) -> Option<int> {
        if self.len() == 0 {
            None
        } else {
            self.after_next().current_pos()
        }
    }

    /// The state after `n` calls of `next_item`.
    pub open spec fn after_calls(self, n: nat) -> QueueView<T>
        decreases n,
    {
        if n == 0 {
            self
        } else {
            self.after_calls((n - 1) as nat).after_next()
        }
    }

    /// The state after the cursor is placed on `i`.
    pub open spec fn placed(self, i: int) -> QueueView<T> {
        QueueView { items: self.items, index: i, mode: self.mode, has_advanced: false }
    }

    /// The cursor position that `skip(n)` chooses.
    pub open spec fn skip_index(self, n: int) -> int {
        let step = if self.has_advanced {
            n + 1
        } else {
            n
        };
        if self.len() == 0 {
            0
        } else if self.mode == RepeatMode::Off {
            if self.index + step <= self.len() {
                self.index + step
            } else {
                self.len()
            }
        } else {
            (self.index + step) % self.len()
        }
    }

    pub open spec fn after_skip(self, n: int) -> QueueView<T> {
        self.placed(self.skip_index(n))
    }

    /// The cursor position that `rewind(n)` chooses: backwards, wrapping from
    /// the first item to the end whatever the repeat mode.
    pub open spec fn rewind_index(self, n: int) -> int {
        if self.len() == 0 {
            0
        } else if n <= self.index {
            self.index - n
        } else {
            self.len() - (n - self.index)
        }
    }
}

/// `(x + y + extra) mod len`, computed without overflow.
pub(crate) fn wrap_add(x: usize, y: usize, extra: bool, len: usize) -> (r: usize)
    requires
        len > 0,
    ensures
        r < len,
        r as int == (x + y + if extra {
            1int
        } else {
            0
        }) % (len as int),
{
    let a = x % len;
    let b = y % len;
    let s = if a >= len - b {
        a - (len - b)
    } else {
        a + b
    };
    let r = if extra {
        if s + 1 == len {
            0
        } else {
            s + 1
        }
    } else {
        s
    };
    proof {
        let i = x as int;
        let m = len as int;
        let e: int = if extra {
            1
        } else {
            0
        };
        if a + b >= m {
            lemma_mod_add_multiples_vanish(a + b - m, m);
            lemma_small_mod((a + b - m) as nat, m as nat);
        } else {
            lemma_small_mod((a + b) as nat, m as nat);
        }
        lemma_add_mod_noop(i, y as int, m);
        assert(s as int == (i + y as int) % m);
        lemma_add_mod_noop_right(e, i + y as int, m);
        if s + e == m {
            lemma_mod_self_0(m);
        } else {
            lemma_small_mod((s + e) as nat, m as nat);
        }
        assert(r as int == (i + y as int + e) % m);
    }
    r
}

/// A queue of items with a cursor, iterated by [`Queue::next_item`] under one
/// of three repeat disciplines, and kept consistent while it is edited.
#[derive(Clone, Debug)]
pub struct Queue<T> {
    items: Vec<T>,
    index: usize,
    /// The repeat mode of the queue, which decides what `next_item` returns.
    pub repeat_mode: RepeatMode,
    has_advanced: bool,
}

impl<T> View for Queue<T> {
    type V = QueueView<T>;

    closed spec fn view(&self) -> QueueView<T> {
        QueueView {
            items: self.items@,
            index: self.index as int,
            mode: self.repeat_mode,
            has_advanced: self.has_advanced,
        }
    }
}

impl<T> Queue<T> {
    /// Create an empty queue with the given repeat mode.
    pub fn new(repeat_mode: RepeatMode) -> (q: Self)
        ensures
            q@.items == Seq::<T>::empty(),
            q@.index == 0,
            q@.mode == repeat_mode,
            !q@.has_advanced,
    {
        Queue { items: Vec::new(), index: 0, repeat_mode, has_advanced: false }
    }

    /// Return the next item according to the repeat mode, and move the cursor.
    ///
    /// The first call after creation or after the cursor was placed (`jump`,
    /// `skip`, `rewind`, `clear`) returns the item under the cursor. After
    /// that, `Off` moves one step and stops past the end, `All` moves one step
    /// and wraps, and `Single` stays.
    pub fn next_item(&mut self) -> (r: Option<&T>)
        requires
            old(self)@.wf(),
        ensures
            final(self)@ == old(self)@.after_next(),
            final(self)@.wf(),
            r.is_some() == old(self)@.next_pos().is_some(),
            r.is_some() ==> *r.unwrap() == old(self)@.items[old(self)@.next_pos().unwrap()],
    {
        let len = self.items.len();
        if len == 0 {
            return None;
        }
        if self.has_advanced {
            if self.repeat_mode == RepeatMode::Off {
                if self.index < len {
                    self.index = self.index + 1;
                }
            } else if self.repeat_mode == RepeatMode::All {
                self.index = if self.index < len - 1 {
                    self.index + 1
                } else {
                    0
                };
            }
        }
        self.has_advanced = true;
        if self.index < len {
            Some(&self.items[self.index])
        } else {
            None
        }
    }

    /// Change the repeat mode; items, cursor and history stay as they are.
    pub fn set_repeat_mode(&mut self, repeat_mode: RepeatMode)
        ensures
            final(self)@ == (QueueView { mode: repeat_mode, ..old(self)@ }),
    {
        self.repeat_mode = repeat_mode;
    }

    /// The items of the queue.
    pub fn items(&self) -> (r: &[T])
        ensures
            r@ == self@.items,
    {
        self.items.as_slice()
    }

    /// The items of the queue, for editing in place.
    pub fn items_mut(&mut self) -> (r: &mut [T])
        ensures
            r@ == old(self)@.items,
            final(self)@ == (QueueView { items: final(r)@, ..old(self)@ }),
    {
        self.items.as_mut_slice()
    }

    /// True when the queue holds no items.
    pub fn is_empty(&self) -> (r: bool)
        ensures
            r == (self@.items.len() == 0),
    {
        self.items.len() == 0
    }

    /// The cursor: the position of the item returned last. It equals the
    /// number of items once an `Off` queue has run out.
    pub fn index(&self) -> (r: usize)
        ensures
            r == self@.index,
    {
        self.index
    }

    /// Append an item.
    pub fn push(&mut self, item: T)
        requires
            old(self)@.wf(),
        ensures
            final(self)@ == (QueueView { items: old(self)@.items.push(item), ..old(self)@ }),
            final(self)@.wf(),
    {
        self.items.push(item);
    }

    /// Append all of `items`, in order.
    pub fn extend(&mut self, items: Vec<T>)
        requires
            old(self)@.wf(),
        ensures
            final(self)@ == (QueueView { items: old(self)@.items + items@, ..old(self)@ }),
            final(self)@.wf(),
    {
        let mut items = items;
        self.items.append(&mut items);
    }

    /// Remove every item and put the cursor back on 0.
    pub fn clear(&mut self)
        ensures
            final(self)@ == (QueueView {
                items: Seq::<T>::empty(),
                index: 0,
                mode: old(self)@.mode,
                has_advanced: false,
            }),
    {
        self.items.clear();
        self.index = 0;
        self.has_advanced = false;
    }

    /// Remove the item at `index`. The cursor moves back by one when the
    /// removed item stood before it, so that the current item stays current.
    pub fn remove(&mut self, index: usize)
        requires
            old(self)@.wf(),
            index < old(self)@.len(),
        ensures
            final(self)@.items == old(self)@.items.remove(index as int),
            final(self)@.index == if (index as int) < old(self)@.index {
                old(self)@.index - 1
            } else {
                old(self)@.index
            },
            final(self)@.mode == old(self)@.mode,
            final(self)@.has_advanced == old(self)@.has_advanced,
            final(self)@.wf(),
    {
        self.items.remove(index);
        if index < self.index {
            self.index = self.index - 1;
        }
    }

    /// Insert an item at `index`. The cursor moves forward by one when the
    /// item goes in at or before it, so that the current item stays current.
    pub fn insert(&mut self, index: usize, item: T)
        requires
            old(self)@.wf(),
            index <= old(self)@.len(),
        ensures
            final(self)@.items == old(self)@.items.insert(index as int, item),
            final(self)@.index == if (index as int) <= old(self)@.index {
                old(self)@.index + 1
            } else {
                old(self)@.index
            },
            final(self)@.mode == old(self)@.mode,
            final(self)@.has_advanced == old(self)@.has_advanced,
            final(self)@.wf(),
    {
        self.items.insert(index, item);
        assert(self.items@.len() == self.items.len());
        if index <= self.index {
            self.index = self.index + 1;
        }
    }

    /// Place the cursor on `new_index`, so that the next `next_item` returns
    /// the item there. Fails, and changes nothing, past the end of the queue.
    pub fn jump(&mut self, new_index: usize) -> (r: Result<(), OutOfBoundsError<usize>>)
        requires
            old(self)@.wf(),
        ensures
            new_index <= old(self)@.len() ==> r is Ok && final(self)@ == old(self)@.placed(
                new_index as int,
            ),
            new_index > old(self)@.len() ==> r == Err::<(), OutOfBoundsError<usize>>(
                OutOfBoundsError::High { value: new_index, max: old(self)@.len() as usize },
            ) && final(self)@ == old(self)@,
            final(self)@.wf(),
    {
        if new_index > self.items.len() {
            return Err(OutOfBoundsError::High { value: new_index, max: self.items.len() });
        }
        self.has_advanced = false;
        self.index = new_index;
        Ok(())
    }

    /// Skip `n` items forward, so that the next `next_item` returns the item
    /// `n` past the one returned last (or `n` past the cursor, if none was).
    /// An `Off` queue stops at its end; the other modes wrap around.
    pub fn skip(&mut self, n: usize)
        requires
            old(self)@.wf(),
        ensures
            final(self)@ == old(self)@.after_skip(n as int),
            final(self)@.wf(),
    {
        let len = self.items.len();
        let new_index: usize = if len == 0 {
            0
        } else if self.repeat_mode == RepeatMode::Off {
            let room = len - self.index;
            if n >= room {
                len
            } else if self.has_advanced {
                self.index + n + 1
            } else {
                self.index + n
            }
        } else {
            wrap_add(self.index, n, self.has_advanced, len)
        };
        self.index = new_index;
        self.has_advanced = false;
    }

    /// Rewind `n` items, so that the next `next_item` returns the item `n`
    /// before the cursor. Rewinding wraps from the first item to the end,
    /// whatever the repeat mode.
    pub fn rewind(&mut self, n: usize)
        requires
            old(self)@.wf(),
            old(self)@.len() == 0 || n <= old(self)@.index + old(self)@.len(),
        ensures
            final(self)@ == old(self)@.placed(old(self)@.rewind_index(n as int)),
            final(self)@.wf(),
    {
        let len = self.items.len();
        let new_index: usize = if len == 0 {
            0
        } else if n <= self.index {
            self.index - n
        } else {
            len - (n - self.index)
        };
        self.index = new_index;
        self.has_advanced = false;
    }

    /// The current item: the one under the cursor, if any.
    pub fn current(&self) -> (r: Option<&T>)
        ensures
            r.is_some() == self@.current_pos().is_some(),
            r.is_some() ==> *r.unwrap() == self@.items[self@.index],
    {
        if self.index < self.items.len() {
            Some(&self.items[self.index])
        } else {
            None
        }
    }
}

/// Updates the item at `j`, leaving cursor, mode and history as they are.
pub open spec fn with_item<T>(v: QueueView<T>, j: int, x: T) -> QueueView<T> {
    QueueView { items: v.items.update(j, x), ..v }
}

proof fn lemma_all_state<T>(v: QueueView<T>, j: nat)
    requires
        v.mode == RepeatMode::All,
        v.len() > 0,
        v.index == 0,
        !v.has_advanced,
        j >= 1,
    ensures
        v.after_calls(j) == (QueueView {
            items: v.items,
            index: (j - 1) % v.len(),
            mode: v.mode,
            has_advanced: true,
        }),
    decreases j,
{
    let m = v.len();
    if j == 1 {
        assert(v.after_calls(0) == v);
        lemma_small_mod(0, m as nat);
    } else {
        lemma_all_state(v, (j - 1) as nat);
        lemma_step_wraps(j - 2, m);
    }
}

/// One wrapping step from position `(i mod m)` lands on `(i + 1) mod m`.
proof fn lemma_step_wraps(i: int, m: int)
    requires
        i >= 0,
        m > 0,
    ensures
        (if i % m + 1 < m {
            i % m + 1
        } else {
            0
        }) == (i + 1) % m,
{
    lemma_add_mod_noop_right(1, i, m);
    if i % m + 1 < m {
        lemma_small_mod((i % m + 1) as nat, m as nat);
    } else {
        lemma_mod_self_0(m);
    }
}

/// In `All` mode, calling `next_item` `k·len` times on a non-empty queue whose
/// cursor was just placed on the first item yields the items `k` times over,
/// in order: call number `j` (from 0) returns the item at `j mod len`.
pub proof fn lemma_all_cycles<T>(v: QueueView<T>, k: nat)
    requires
        v.mode == RepeatMode::All,
        v.len() > 0,
        v.index == 0,
        !v.has_advanced,
    ensures
        forall|j: nat| j < k * v.len() ==> #[trigger] v.after_calls(j).next_pos() == Some((j as int) % v.len()),
{
    let m = v.len();
    assert forall|j: nat| j < k * m implies #[trigger] v.after_calls(j).next_pos() == Some(
        (j as int) % m,
    ) by {
        if j == 0 {
            lemma_small_mod(0, m as nat);
        } else {
            lemma_all_state(v, j);
            lemma_step_wraps(j - 1, m);
        }
    }
}

proof fn lemma_single_state<T>(v: QueueView<T>, n: nat)
    requires
        v.mode == RepeatMode::Single,
        v.wf(),
    ensures
        v.after_calls(n).items == v.items,
        v.after_calls(n).index == v.index,
        v.after_calls(n).mode == v.mode,
    decreases n,
{
    if n > 0 {
        lemma_single_state(v, (n - 1) as nat);
    }
}

/// In `Single` mode every call of `next_item` returns the item under the
/// cursor (or nothing, if the cursor is past the end) and leaves the cursor
/// where it is, however many calls came before.
pub proof fn lemma_single_repeats<T>(v: QueueView<T>, n: nat)
    requires
        v.mode == RepeatMode::Single,
        v.wf(),
    ensures
        v.after_calls(n).index == v.index,
        v.after_calls(n).next_pos() == v.current_pos(),
{
    lemma_single_state(v, n);
}

/// In `Single` mode, editing an item other than the current one does not
/// change what `next_item` returns.
pub proof fn lemma_single_ignores_other_edits<T>(v: QueueView<T>, j: int, x: T)
    requires
        v.mode == RepeatMode::Single,
        v.wf(),
        0 <= j < v.len(),
        j != v.index,
    ensures
        with_item(v, j, x).next_pos() == v.next_pos(),
        item_at(with_item(v, j, x).items, with_item(v, j, x).next_pos()) == item_at(
            v.items,
            v.next_pos(),
        ),
{
}

/// The state after `insert(i, x)`, as `Queue::insert` states it.
pub open spec fn with_inserted<T>(v: QueueView<T>, i: int, x: T) -> QueueView<T> {
    QueueView {
        items: v.items.insert(i, x),
        index: if i <= v.index {
            v.index + 1
        } else {
            v.index
        },
        ..v
    }
}

/// The state after `remove(i)`, as `Queue::remove` states it.
pub open spec fn with_removed<T>(v: QueueView<T>, i: int) -> QueueView<T> {
    QueueView {
        items: v.items.remove(i),
        index: if i < v.index {
            v.index - 1
        } else {
            v.index
        },
        ..v
    }
}

/// In `Single` mode, inserting an item anywhere, or removing one other than
/// the current one, leaves `next_item` returning the same item (the cursor
/// follows it), and leaves a cursor past the end past the end.
pub proof fn lemma_single_survives_edits<T>(v: QueueView<T>, i: int, x: T)
    requires
        v.mode == RepeatMode::Single,
        v.wf(),
    ensures
        0 <= i <= v.len() ==> item_at(
            with_inserted(v, i, x).items,
            with_inserted(v, i, x).next_pos(),
        ) == item_at(v.items, v.next_pos()),
        0 <= i < v.len() && i != v.index ==> item_at(
            with_removed(v, i).items,
            with_removed(v, i).next_pos(),
        ) == item_at(v.items, v.next_pos()),
{
}

proof fn lemma_off_state<T>(v: QueueView<T>, j: nat)
    requires
        v.mode == RepeatMode::Off,
        v.len() > 0,
        v.index == 0,
        !v.has_advanced,
        j >= 1,
    ensures
        v.after_calls(j).items == v.items,
        v.after_calls(j).mode == v.mode,
        v.after_calls(j).has_advanced,
        v.after_calls(j).index == if j - 1 <= v.len() {
            j - 1
        } else {
            v.len()
        },
    decreases j,
{
    if j == 1 {
        assert(v.after_calls(0) == v);
    } else {
        lemma_off_state(v, (j - 1) as nat);
    }
}

proof fn lemma_empty_state<T>(v: QueueView<T>, j: nat)
    requires
        v.len() == 0,
    ensures
        v.after_calls(j) == v,
    decreases j,
{
    if j > 0 {
        lemma_empty_state(v, (j - 1) as nat);
    }
}

/// In `Off` mode, from a cursor just placed on the first item, the first
/// `len` calls of `next_item` return the items in order, and every call from
/// then on returns nothing.
pub proof fn lemma_off_runs_out<T>(v: QueueView<T>, j: nat)
    requires
        v.mode == RepeatMode::Off,
        v.index == 0,
        !v.has_advanced,
    ensures
        j < v.len() ==> v.after_calls(j).next_pos() == Some(j as int),
        j >= v.len() ==> v.after_calls(j).next_pos() == None::<int>,
{
    if v.len() == 0 {
        lemma_empty_state(v, j);
    } else if j > 0 {
        lemma_off_state(v, j);
    }
}

/// After `jump(n)` with `n <= len`, the next `next_item` returns the item at
/// `n`, or nothing when `n == len`, whatever the repeat mode.
pub proof fn lemma_jump_then_next<T>(v: QueueView<T>, n: int)
    requires
        v.wf(),
        0 <= n <= v.len(),
    ensures
        v.placed(n).next_pos() == if n < v.len() {
            Some(n)
        } else {
            None::<int>
        },
        v.placed(n).after_next().index == n,
{
}

/// Two skips in a row, with no `next_item` between them, land where one skip
/// by their sum lands.
pub proof fn lemma_skips_add<T>(v: QueueView<T>, a: nat, b: nat)
    requires
        v.wf(),
    ensures
        v.after_skip(a as int).after_skip(b as int) == v.after_skip((a + b) as int),
{
    let m = v.len();
    if m > 0 && v.mode != RepeatMode::Off {
        let step: int = if v.has_advanced {
            a as int + 1
        } else {
            a as int
        };
        lemma_add_mod_noop_right(b as int, v.index + step, m);
        assert(b + (v.index + step) == v.index + step + b);
    }
}

/// After `rewind(n)` with `n >= 1` on a non-empty queue, the next
/// `next_item` returns the item `n` places before the cursor, wrapping from
/// the first item to the end, whatever the repeat mode.
pub proof fn lemma_rewind_then_next<T>(v: QueueView<T>, n: int)
    requires
        v.wf(),
        v.len() > 0,
        1 <= n <= v.index + v.len(),
    ensures
        0 <= v.rewind_index(n) < v.len(),
        v.placed(v.rewind_index(n)).next_pos() == Some(v.rewind_index(n)),
{
}

/// Removing an item before the cursor keeps the current item current.
pub proof fn lemma_remove_keeps_current<T>(v: QueueView<T>, i: int)
    requires
        v.wf(),
        0 <= i < v.index,
        i < v.len(),
    ensures
        ({
            let w = QueueView { items: v.items.remove(i), index: v.index - 1, ..v };
            item_at(w.items, w.current_pos()) == item_at(v.items, v.current_pos())
        }),
{
}

} // verus!
