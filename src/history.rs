//! Back/forward navigation history with truncation on a new visit.
//!
//! A history holds the visited locations in the order they were visited and a
//! cursor on the one on display. Visiting a new location discards every entry
//! after the cursor, appends the new one and moves the cursor onto it. Going
//! back or forward moves the cursor one step and stops silently at either end.
//!
//! A history may start empty ([`History::new`]) or with one seeded location
//! such as a new-tab page ([`History::with_start_page`]).
use std::collections::VecDeque;

use vstd::prelude::*;

verus! {

/// The abstract value of a [`History`]: its locations, oldest first, and the
/// position of the one on display.
pub struct HistoryState {
    pub entries: Seq<Seq<char>>,
    pub cursor: nat,
}

impl HistoryState {
    /// The history with no entries.
    pub open spec fn empty() -> HistoryState {
        HistoryState { entries: Seq::empty(), cursor: 0 }
    }

    /// The history holding one location, on display.
    pub open spec fn single(path: Seq<char>) -> HistoryState {
        HistoryState { entries: seq![path], cursor: 0 }
    }

    /// The cursor points at an entry, or is zero when there is none.
    pub open spec fn wf(self) -> bool {
        if self.entries.len() == 0 {
            self.cursor == 0
        } else {
            self.cursor < self.entries.len()
        }
    }

    /// The location on display; empty when the history is.
    pub open spec fn current(self) -> Seq<char> {
        if self.entries.len() == 0 {
            Seq::empty()
        } else {
            self.entries[self.cursor as int]
        }
    }

    pub open spec fn can_go_back(self) -> bool {
        self.cursor > 0
    }

    pub open spec fn can_go_forward(self) -> bool {
        self.cursor + 1 < self.entries.len()
    }

    /// The entries that survive a new visit: those up to the cursor.
    pub open spec fn kept(self) -> Seq<Seq<char>> {
        if self.entries.len() == 0 {
            Seq::empty()
        } else {
            self.entries.take((self.cursor + 1) as int)
        }
    }

    /// The history after visiting `path`.
    pub open spec fn navigated(self, path: Seq<char>) -> HistoryState {
        HistoryState { entries: self.kept().push(path), cursor: self.kept().len() }
    }

    /// The history after one step back.
    pub open spec fn backed(self) -> HistoryState {
        if self.can_go_back() {
            HistoryState { cursor: (self.cursor - 1) as nat, ..self }
        } else {
            self
        }
    }

    /// The history after one step forward.
    pub open spec fn forwarded(self) -> HistoryState {
        if self.can_go_forward() {
            HistoryState { cursor: self.cursor + 1, ..self }
        } else {
            self
        }
    }

    /// The history after visiting each of `paths` in turn.
    pub open spec fn navigated_all(self, paths: Seq<Seq<char>>) -> HistoryState
        decreases paths.len(),
    {
        if paths.len() == 0 {
            self
        } else {
            self.navigated_all(paths.drop_last()).navigated(paths.last())
        }
    }

    /// The history after `n` steps back.
    pub open spec fn backed_n(self, n: nat) -> HistoryState
        decreases n,
    {
        if n == 0 {
            self
        } else {
            self.backed_n((n - 1) as nat).backed()
        }
    }

    /// The history after `n` steps forward.
    pub open spec fn forwarded_n(self, n: nat) -> HistoryState
        decreases n,
    {
        if n == 0 {
            self
        } else {
            self.forwarded_n((n - 1) as nat).forwarded()
        }
    }

    /// The position of the last entry, zero when there is none.
    pub open spec fn last_index(self) -> nat {
        if self.entries.len() == 0 {
            0
        } else {
            (self.entries.len() - 1) as nat
        }
    }
}

/// A navigation history of location strings.
#[derive(Debug, Clone)]
pub struct History {
    entries: VecDeque<String>,
    cursor: usize,
}

impl View for History {
    type V = HistoryState;

    closed spec fn view(&self) -> HistoryState {
        HistoryState { entries: self.entries@.map_values(|s: String| s@), cursor: self.cursor as nat }
    }
}

impl History {
    pub open spec fn wf(&self) -> bool {
        self@.wf()
    }

    /// A history with no entries.
    pub fn new() -> (r: History)
        ensures
            r.wf(),
            r@ == HistoryState::empty(),
    {
        let r = History { entries: VecDeque::new(), cursor: 0 };
        assert(r@.entries =~= Seq::empty());
        r
    }

    /// A history whose only entry, on display, is `path`.
    pub fn with_start_page(path: &str) -> (r: History)
        ensures
            r.wf(),
            r@ == HistoryState::single(path@),
    {
        let mut entries: VecDeque<String> = VecDeque::new();
        entries.push_back(path.to_string());
        let r = History { entries, cursor: 0 };
        assert(r@.entries =~= seq![path@]);
        r
    }
    /// Visits `path`: drops every entry after the cursor, appends `path` and
    /// moves the cursor onto it. Equal paths are not merged.
    pub fn navigate(&mut self, path: &str)
        requires
            old(self).wf(),
        ensures
            final(self).wf(),
            final(self)@ == old(self)@.navigated(path@),
    {
        if self.entries.len() > 0 {
            self.entries.truncate(self.cursor + 1);
        }
        assert(self@.entries =~= old(self)@.kept());
        self.entries.push_back(path.to_string());
        self.cursor = self.entries.len() - 1;
        assert(self@.entries =~= old(self)@.kept().push(path@));
    }

    /// Moves the cursor one entry back; does nothing at the first entry.
    pub fn back(&mut self)
        requires
            old(self).wf(),
        ensures
            final(self).wf(),
            final(self)@ == old(self)@.backed(),
    {
        if self.cursor > 0 {
            self.cursor = self.cursor - 1;
        }
    }

    /// Moves the cursor one entry forward; does nothing at the last entry.
    pub fn forward(&mut self)
        requires
            old(self).wf(),
        ensures
            final(self).wf(),
            final(self)@ == old(self)@.forwarded(),
    {
        assert(self@.entries.len() == self.entries.len());
        if self.cursor + 1 < self.entries.len() {
            self.cursor = self.cursor + 1;
        }
    }

    /// The location on display, or an empty string when there is none.
    pub fn current_path(&self) -> (r: String)
        requires
            self.wf(),
        ensures
            r@ == self@.current(),
    {
        if self.entries.len() == 0 {
            String::new()
        } else {
            self.entries[self.cursor].clone()
        }
    }

    /// Whether an entry lies before the one on display.
    pub fn can_go_back(&self) -> (r: bool)
        requires
            self.wf(),
        ensures
            r == self@.can_go_back(),
    {
        self.cursor > 0
    }

    /// Whether an entry lies after the one on display.
    pub fn can_go_forward(&self) -> (r: bool)
        requires
            self.wf(),
        ensures
            r == self@.can_go_forward(),
    {
        assert(self@.entries.len() == self.entries.len());
        self.cursor + 1 < self.entries.len()
    }

    /// The number of entries kept.
    pub fn length(&self) -> (r: usize)
        ensures
            r == self@.entries.len(),
    {
        self.entries.len()
    }
}

proof fn lemma_navigated_at_end(h: HistoryState, path: Seq<char>)
    requires
        h.wf(),
    ensures
        h.navigated(path).wf(),
        !h.navigated(path).can_go_forward(),
        h.navigated(path).current() == path,
        !h.can_go_forward() ==> h.navigated(path).entries == h.entries.push(path),
{
    if h.entries.len() > 0 && !h.can_go_forward() {
        assert(h.kept() =~= h.entries);
    }
}

proof fn lemma_visits(h: HistoryState, paths: Seq<Seq<char>>)
    requires
        h.wf(),
        !h.can_go_forward(),
    ensures
        h.navigated_all(paths).wf(),
        !h.navigated_all(paths).can_go_forward(),
        h.navigated_all(paths).entries == h.entries + paths,
        paths.len() > 0 ==> h.navigated_all(paths).current() == paths.last(),
    decreases paths.len(),
{
    if paths.len() == 0 {
        assert(h.entries + paths =~= h.entries);
    } else {
        lemma_visits(h, paths.drop_last());
        lemma_navigated_at_end(h.navigated_all(paths.drop_last()), paths.last());
        assert((h.entries + paths.drop_last()).push(paths.last()) =~= h.entries + paths);
    }
}

/// Visiting locations one after another, with no step back in between (as
/// from a fresh history), leaves after each visit the latest location on
/// display, and the entries are those held before followed by the locations
/// visited so far: one more entry per visit.
pub proof fn lemma_visits_accumulate(h: HistoryState, paths: Seq<Seq<char>>)
    requires
        h.wf(),
        !h.can_go_forward(),
    ensures
        forall|i: int|
            0 < i <= paths.len() ==> {
                let g = #[trigger] h.navigated_all(paths.take(i));
                &&& g.current() == paths[i - 1]
                &&& g.entries == h.entries + paths.take(i)
                &&& g.entries.len() == h.entries.len() + i
            },
{
    assert forall|i: int| 0 < i <= paths.len() implies {
        let g = #[trigger] h.navigated_all(paths.take(i));
        &&& g.current() == paths[i - 1]
        &&& g.entries == h.entries + paths.take(i)
        &&& g.entries.len() == h.entries.len() + i
    } by {
        lemma_visits(h, paths.take(i));
    }
}

proof fn lemma_back_steps(h: HistoryState, n: nat)
    requires
        h.wf(),
    ensures
        h.backed_n(n) == (HistoryState {
            cursor: if n <= h.cursor { (h.cursor - n) as nat } else { 0 },
            ..h
        }),
    decreases n,
{
    if n > 0 {
        lemma_back_steps(h, (n - 1) as nat);
    }
}

proof fn lemma_forward_steps(h: HistoryState, n: nat)
    requires
        h.wf(),
    ensures
        h.forwarded_n(n) == (HistoryState {
            cursor: if h.cursor + n <= h.last_index() { h.cursor + n } else { h.last_index() },
            ..h
        }),
    decreases n,
{
    if n > 0 {
        lemma_forward_steps(h, (n - 1) as nat);
    }
}

/// Once enough steps back have reached the first entry, every further step
/// back leaves the history, and so the location on display, as it is; the
/// same holds of steps forward once the last entry is reached.
pub proof fn lemma_clamped_at_ends(h: HistoryState, n: nat)
    requires
        h.wf(),
    ensures
        !h.can_go_back() ==> h.backed() == h,
        !h.can_go_forward() ==> h.forwarded() == h,
        n >= h.cursor ==> h.backed_n(n + 1) == h.backed_n(n),
        n >= h.cursor && h.entries.len() > 0 ==> h.backed_n(n).current() == h.entries.first(),
        n + h.cursor >= h.last_index() ==> h.forwarded_n(n + 1) == h.forwarded_n(n),
        n + h.cursor >= h.last_index() && h.entries.len() > 0 ==> h.forwarded_n(n).current()
            == h.entries.last(),
{
    lemma_back_steps(h, n);
    lemma_back_steps(h, n + 1);
    lemma_forward_steps(h, n);
    lemma_forward_steps(h, n + 1);
}

/// From `[a, b, c]` with `c` on display, two steps back and a visit to `d`
/// give `[a, d]` with `d` on display, and nothing lies ahead of it.
pub proof fn lemma_new_visit_truncates(a: Seq<char>, b: Seq<char>, c: Seq<char>, d: Seq<char>)
    ensures
        ({
            let g = HistoryState { entries: seq![a, b, c], cursor: 2 }.backed().backed().navigated(d);
            &&& g == HistoryState { entries: seq![a, d], cursor: 1 }
            &&& !g.can_go_forward()
            &&& g.forwarded() == g
        }),
{
    let h = HistoryState { entries: seq![a, b, c], cursor: 2 }.backed().backed();
    assert(h.kept().push(d) =~= seq![a, d]);
}

/// Visiting `x`, stepping back and stepping forward again returns to the
/// state right after the visit, with `x` on display.
pub proof fn lemma_visit_back_forward(h: HistoryState, x: Seq<char>)
    requires
        h.wf(),
    ensures
        h.navigated(x).backed().forwarded() == h.navigated(x),
        h.navigated(x).backed().forwarded().current() == x,
{
    lemma_navigated_at_end(h, x);
}

} // verus!
