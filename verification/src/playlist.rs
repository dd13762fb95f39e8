//! An ordered play queue with a cursor and repeat modes.
use vstd::prelude::*;
use std::collections::VecDeque;

verus! {

/// One queued video.
///
/// Its length and resume position in seconds are `f64`s, carried as their
/// IEEE-754 bit patterns (`f64::to_bits`); nothing here interprets them.
#[derive(Debug, Clone)]
pub struct PlaylistEntry {
    pub path: String,
    pub title: String,
    pub duration_bits: u64,
    pub position_bits: u64,
}

/// What happens when playback moves past an entry.
#[derive(Debug, Clone, Copy, PartialEq, Eq, Structural)]
pub enum RepeatMode {
    Off,
    One,
    All,
}

impl RepeatMode {
    /// The repeat mode that follows this one in the settings cycle.
    pub open spec fn spec_next(self) -> RepeatMode {
        match self {
            RepeatMode::Off => RepeatMode::One,
            RepeatMode::One => RepeatMode::All,
            RepeatMode::All => RepeatMode::Off,
        }
    }

    pub fn next(&self) -> (r: Self)
        ensures
            r == self.spec_next(),
    {
        match self {
            RepeatMode::Off => RepeatMode::One,
            RepeatMode::One => RepeatMode::All,
            RepeatMode::All => RepeatMode::Off,
        }
    }
}

/// Cycling through the repeat modes comes back to the start after three steps.
pub proof fn repeat_cycle_returns(m: RepeatMode)
    ensures
        m.spec_next().spec_next().spec_next() == m,
        m.spec_next() != m,
{
}

/// The entry at index `i`, if there is one.
pub open spec fn entry_at(s: Seq<PlaylistEntry>, i: int) -> Option<PlaylistEntry> {
    if 0 <= i < s.len() {
        Some(s[i])
    } else {
        None
    }
}

/// `r` refers to the entry `o` holds, or is empty when `o` is.
pub open spec fn shows(r: Option<&PlaylistEntry>, o: Option<PlaylistEntry>) -> bool {
    match r {
        Some(e) => o == Some(*e),
        None => o is None,
    }
}

/// The cursor after moving forward from `i` in a queue of `len` entries.
pub open spec fn next_index(mode: RepeatMode, i: int, len: int) -> int {
    if len == 0 {
        i
    } else {
        match mode {
            RepeatMode::One => i,
            RepeatMode::All => (i + 1) % len,
            RepeatMode::Off => if i + 1 < len { i + 1 } else { i },
        }
    }
}

/// What moving forward from `i` yields: `None` in an empty queue or past the
/// end without repeat, else the entry under the moved cursor.
pub open spec fn next_result(mode: RepeatMode, s: Seq<PlaylistEntry>, i: int) -> Option<PlaylistEntry> {
    if s.len() == 0 {
        None
    } else {
        match mode {
            RepeatMode::Off => if i + 1 < s.len() { Some(s[i + 1]) } else { None },
            _ => entry_at(s, next_index(mode, i, s.len() as int)),
        }
    }
}

/// The cursor after moving back from `i`: one step toward the start, if not there.
pub open spec fn previous_index(i: int, len: int) -> int {
    if len > 0 && i > 0 {
        i - 1
    } else {
        i
    }
}

/// A play queue: entries in order, a cursor, and the repeat mode.
pub struct Playlist {
    entries: VecDeque<PlaylistEntry>,
    current_index: usize,
    repeat_mode: RepeatMode,
    shuffle: bool,
}

fn entry_ref(entries: &VecDeque<PlaylistEntry>, i: usize) -> (r: Option<&PlaylistEntry>)
    ensures
        shows(r, entry_at(entries@, i as int)),
{
    if i < entries.len() {
        Some(&entries[i])
    } else {
        None
    }
}

impl Playlist {
    pub closed spec fn spec_entries(&self) -> Seq<PlaylistEntry> {
        self.entries@
    }

    pub closed spec fn spec_current_index(&self) -> usize {
        self.current_index
    }

    pub closed spec fn spec_repeat_mode(&self) -> RepeatMode {
        self.repeat_mode
    }

    pub closed spec fn spec_shuffle(&self) -> bool {
        self.shuffle
    }

    /// An empty queue, cursor at 0, no repeat, no shuffle.
    pub fn new() -> (r: Self)
        ensures
            r.spec_entries() == Seq::<PlaylistEntry>::empty(),
            r.spec_current_index() == 0,
            r.spec_repeat_mode() == RepeatMode::Off,
            !r.spec_shuffle(),
    {
        Playlist { entries: VecDeque::new(), current_index: 0, repeat_mode: RepeatMode::Off, shuffle: false }
    }

    /// A queue of `entries` as read back from storage: cursor at 0, no repeat, no shuffle.
    pub fn from_entries(entries: VecDeque<PlaylistEntry>) -> (r: Self)
        ensures
            r.spec_entries() == entries@,
            r.spec_current_index() == 0,
            r.spec_repeat_mode() == RepeatMode::Off,
            !r.spec_shuffle(),
    {
        Playlist { entries, current_index: 0, repeat_mode: RepeatMode::Off, shuffle: false }
    }

    /// Appends `entry` at the end; the cursor stays.
    pub fn add_entry(&mut self, entry: PlaylistEntry)
        ensures
            final(self).spec_entries() == old(self).spec_entries().push(entry),
            final(self).spec_current_index() == old(self).spec_current_index(),
            final(self).spec_repeat_mode() == old(self).spec_repeat_mode(),
            final(self).spec_shuffle() == old(self).spec_shuffle(),
    {
        self.entries.push_back(entry);
    }

    /// Removes every entry and puts the cursor back at 0.
    pub fn clear(&mut self)
        ensures
            final(self).spec_entries() == Seq::<PlaylistEntry>::empty(),
            final(self).spec_current_index() == 0,
            final(self).spec_repeat_mode() == old(self).spec_repeat_mode(),
            final(self).spec_shuffle() == old(self).spec_shuffle(),
    {
        self.entries.clear();
        self.current_index = 0;
    }

    /// The entry under the cursor, if the cursor is inside the queue.
    pub fn current(&self) -> (r: Option<&PlaylistEntry>)
        ensures
            shows(r, entry_at(self.spec_entries(), self.spec_current_index() as int)),
    {
        entry_ref(&self.entries, self.current_index)
    }

    /// Moves the cursor forward as the repeat mode says and yields the entry
    /// under it (see `next_index` and `next_result`).
    pub fn next(&mut self) -> (r: Option<&PlaylistEntry>)
        ensures
            final(self).spec_current_index() == next_index(
                old(self).spec_repeat_mode(),
                old(self).spec_current_index() as int,
                old(self).spec_entries().len() as int,
            ),
            shows(r, next_result(
                old(self).spec_repeat_mode(),
                old(self).spec_entries(),
                old(self).spec_current_index() as int,
            )),
            final(self).spec_entries() == old(self).spec_entries(),
            final(self).spec_repeat_mode() == old(self).spec_repeat_mode(),
            final(self).spec_shuffle() == old(self).spec_shuffle(),
    {
        let len = self.entries.len();
        if len == 0 {
            return None;
        }
        match self.repeat_mode {
            RepeatMode::One => entry_ref(&self.entries, self.current_index),
            RepeatMode::All => {
                let i = self.current_index;
                // (i + 1) % len, computed without leaving the range of usize
                self.current_index = if i < len { (i + 1) % len } else { (i % len + 1) % len };
                proof {
                    if i >= len {
                        vstd::arithmetic::div_mod::lemma_add_mod_noop(i as int, 1, len as int);
                        if len > 1 {
                            vstd::arithmetic::div_mod::lemma_small_mod(1, len as nat);
                        }
                    }
                }
                entry_ref(&self.entries, self.current_index)
            },
            RepeatMode::Off => {
                if self.current_index < len - 1 {
                    self.current_index = self.current_index + 1;
                    entry_ref(&self.entries, self.current_index)
                } else {
                    None
                }
            },
        }
    }

    /// Moves the cursor one step back, if it is not at the start, and yields
    /// the entry under it; an empty queue yields `None`.
    pub fn previous(&mut self) -> (r: Option<&PlaylistEntry>)
        ensures
            final(self).spec_current_index() == previous_index(
                old(self).spec_current_index() as int,
                old(self).spec_entries().len() as int,
            ),
            old(self).spec_entries().len() == 0 ==> r is None,
            old(self).spec_entries().len() > 0 ==> shows(r, entry_at(
                old(self).spec_entries(),
                final(self).spec_current_index() as int,
            )),
            final(self).spec_entries() == old(self).spec_entries(),
            final(self).spec_repeat_mode() == old(self).spec_repeat_mode(),
            final(self).spec_shuffle() == old(self).spec_shuffle(),
    {
        if self.entries.len() == 0 {
            return None;
        }
        if self.current_index > 0 {
            self.current_index = self.current_index - 1;
        }
        entry_ref(&self.entries, self.current_index)
    }

    pub fn set_repeat_mode(&mut self, mode: RepeatMode)
        ensures
            final(self).spec_repeat_mode() == mode,
            final(self).spec_entries() == old(self).spec_entries(),
            final(self).spec_current_index() == old(self).spec_current_index(),
            final(self).spec_shuffle() == old(self).spec_shuffle(),
    {
        self.repeat_mode = mode;
    }

    pub fn repeat_mode(&self) -> (r: RepeatMode)
        ensures
            r == self.spec_repeat_mode(),
    {
        self.repeat_mode
    }

    pub fn entries(&self) -> (r: &VecDeque<PlaylistEntry>)
        ensures
            r@ == self.spec_entries(),
    {
        &self.entries
    }

    /// Direct access to the queue; the cursor is left where it was, even if
    /// entries are removed under it.
    pub fn entries_mut(&mut self) -> (r: &mut VecDeque<PlaylistEntry>)
        ensures
            r@ == old(self).spec_entries(),
            final(self).spec_entries() == final(r)@,
            final(self).spec_current_index() == old(self).spec_current_index(),
            final(self).spec_repeat_mode() == old(self).spec_repeat_mode(),
            final(self).spec_shuffle() == old(self).spec_shuffle(),
    {
        &mut self.entries
    }

    pub fn current_index(&self) -> (r: usize)
        ensures
            r == self.spec_current_index(),
    {
        self.current_index
    }

    /// Puts the cursor on `index` and yields that entry, if `index` is inside
    /// the queue; otherwise nothing changes and the result is `None`.
    pub fn set_current_index(&mut self, index: usize) -> (r: Option<&PlaylistEntry>)
        ensures
            index < old(self).spec_entries().len() ==> final(self).spec_current_index() == index,
            index >= old(self).spec_entries().len() ==> final(self).spec_current_index()
                == old(self).spec_current_index(),
            shows(r, entry_at(old(self).spec_entries(), index as int)),
            final(self).spec_entries() == old(self).spec_entries(),
            final(self).spec_repeat_mode() == old(self).spec_repeat_mode(),
            final(self).spec_shuffle() == old(self).spec_shuffle(),
    {
        if index < self.entries.len() {
            self.current_index = index;
            entry_ref(&self.entries, self.current_index)
        } else {
            None
        }
    }
}

} // verus!

verus! {

/// The cursor after moving forward `k` times from `i`.
pub open spec fn advance(mode: RepeatMode, i: int, len: int, k: nat) -> int
    decreases k,
{
    if k == 0 {
        i
    } else {
        next_index(mode, advance(mode, i, len, (k - 1) as nat), len)
    }
}

proof fn lemma_advance_all(i: int, len: int, k: nat)
    requires
        0 <= i < len,
    ensures
        advance(RepeatMode::All, i, len, k) == (i + k) % len,
    decreases k,
{
    if k == 0 {
        vstd::arithmetic::div_mod::lemma_small_mod(i as nat, len as nat);
    } else {
        lemma_advance_all(i, len, (k - 1) as nat);
        vstd::arithmetic::div_mod::lemma_add_mod_noop(i + k - 1, 1, len);
        if len > 1 {
            vstd::arithmetic::div_mod::lemma_small_mod(1, len as nat);
        }
        vstd::arithmetic::div_mod::lemma_mod_twice(i + k - 1, len);
    }
}

/// With repeat-all, moving forward through a queue of `len` entries visits
/// every entry once and comes back to where it started after `len` steps.
pub proof fn repeat_all_cycles(i: int, len: int)
    requires
        0 <= i < len,
    ensures
        advance(RepeatMode::All, i, len, len as nat) == i,
        forall|k: nat| k < len ==> 0 <= #[trigger] advance(RepeatMode::All, i, len, k) < len,
        forall|j: nat, k: nat|
            j < k < len ==> #[trigger] advance(RepeatMode::All, i, len, j) != #[trigger] advance(
                RepeatMode::All,
                i,
                len,
                k,
            ),
{
    lemma_advance_all(i, len, len as nat);
    vstd::arithmetic::div_mod::lemma_mod_add_multiples_vanish(i, len);
    vstd::arithmetic::div_mod::lemma_small_mod(i as nat, len as nat);
    assert forall|k: nat| k < len implies 0 <= #[trigger] advance(RepeatMode::All, i, len, k) < len by {
        lemma_advance_all(i, len, k);
        vstd::arithmetic::div_mod::lemma_mod_bound(i + k, len);
    }
    assert forall|j: nat, k: nat| j < k < len implies #[trigger] advance(RepeatMode::All, i, len, j)
        != #[trigger] advance(RepeatMode::All, i, len, k) by {
        lemma_advance_all(i, len, j);
        lemma_advance_all(i, len, k);
        vstd::arithmetic::div_mod::lemma_sub_mod_noop(i + k, i + j, len);
        vstd::arithmetic::div_mod::lemma_small_mod((k - j) as nat, len as nat);
        vstd::arithmetic::div_mod::lemma_small_mod(0, len as nat);
    }
}

/// With repeat-one, moving forward stays on the same entry.
pub proof fn repeat_one_stays(i: int, len: int)
    ensures
        next_index(RepeatMode::One, i, len) == i,
{
}

/// Without repeat, moving forward and then back (away from the end) returns
/// to the same entry; at the last entry, moving forward stays and yields nothing.
pub proof fn next_then_previous(s: Seq<PlaylistEntry>, i: int)
    requires
        0 <= i < s.len(),
    ensures
        i + 1 < s.len() ==> previous_index(next_index(RepeatMode::Off, i, s.len() as int), s.len() as int) == i,
        i + 1 == s.len() ==> next_index(RepeatMode::Off, i, s.len() as int) == i,
        i + 1 == s.len() ==> next_result(RepeatMode::Off, s, i) is None,
{
}

/// Moving back from the first entry stays there.
pub proof fn previous_at_start_stays(len: int)
    ensures
        previous_index(0, len) == 0,
{
}

} // verus!
