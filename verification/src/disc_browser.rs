//! The overlay that lists the audio streams of a disc.

use crate::disc::DiscContents;
use crate::text::{least, minus, plus};
use std::sync::Arc;
use vstd::prelude::*;

verus! {

/// The state of the overlay.
#[derive(Debug)]
pub struct DiscBrowserState {
    pub contents: Arc<DiscContents>,
    pub source_path: String,
    pub cursor: usize,
    pub scroll: usize,
    /// Whether the details of each stream are shown.
    pub expanded: Vec<bool>,
    /// Whether each stream is marked.
    pub selected: Vec<bool>,
}

/// The contents of a [`DiscBrowserState`].
pub struct DiscBrowserV {
    pub contents: Arc<DiscContents>,
    pub source_path: Seq<char>,
    pub cursor: usize,
    pub scroll: usize,
    pub expanded: Seq<bool>,
    pub selected: Seq<bool>,
}

impl View for DiscBrowserState {
    type V = DiscBrowserV;

    open spec fn view(&self) -> DiscBrowserV {
        DiscBrowserV {
            contents: self.contents,
            source_path: self.source_path@,
            cursor: self.cursor,
            scroll: self.scroll,
            expanded: self.expanded@,
            selected: self.selected@,
        }
    }
}

/// `flags` with the one at `i` turned over.
pub open spec fn flipped(flags: Seq<bool>, i: int) -> Seq<bool> {
    if 0 <= i < flags.len() {
        flags.update(i, !flags[i])
    } else {
        flags
    }
}

/// A position moved by `delta`, not below zero.
pub open spec fn moved(at: int, delta: int) -> int {
    if at + delta < 0 {
        0
    } else {
        least(at + delta, usize::MAX as int)
    }
}

fn move_by(at: usize, delta: i32) -> (r: usize)
    ensures
        r == moved(at as int, delta as int),
{
    if delta < 0 {
        let back: usize = (-(delta as i64)) as usize;
        at.saturating_sub(back)
    } else {
        at.saturating_add(delta as usize)
    }
}

impl DiscBrowserV {
    /// The number of streams.
    pub open spec fn len(self) -> int {
        self.contents.presentations@.len() as int
    }

    /// The cursor on stream `i`, held to the last one.
    pub open spec fn at_cursor(self, i: int) -> DiscBrowserV {
        DiscBrowserV { cursor: least(i, minus(self.len(), 1)) as usize, ..self }
    }

    /// The rows of the first `n` streams: one each, and the details of those expanded.
    pub open spec fn rows(self, n: nat) -> int
        decreases n,
    {
        if n == 0 || n > self.contents.presentations@.len() {
            0
        } else {
            let details = if n <= self.expanded.len() && self.expanded[n - 1] {
                self.contents.presentations@[n - 1].details@.len() as int
            } else {
                0
            };
            plus(plus(self.rows((n - 1) as nat), 1), details)
        }
    }

    /// All rows.
    pub open spec fn all_rows(self) -> int {
        self.rows(self.contents.presentations@.len())
    }
}

impl DiscBrowserState {
    /// The overlay as it opens: the cursor on the first stream.
    pub open spec fn opened(contents: Arc<DiscContents>, source_path: Seq<char>) -> DiscBrowserV {
        let n = contents.presentations@.len();
        DiscBrowserV {
            contents,
            source_path,
            cursor: 0,
            scroll: 0,
            expanded: Seq::new(n, |i: int| false),
            selected: Seq::new(n, |i: int| false),
        }
    }

    /// The overlay as it opens.
    pub fn new(contents: Arc<DiscContents>, source_path: String) -> (r: DiscBrowserState)
        ensures
            r@ == DiscBrowserState::opened(contents, source_path@),
    {
        let mut expanded: Vec<bool> = Vec::new();
        let mut selected: Vec<bool> = Vec::new();
        let n: usize = contents.presentations.len();
        for i in 0..n
            invariant
                expanded@ =~= Seq::new(i as nat, |j: int| false),
                selected@ =~= Seq::new(i as nat, |j: int| false),
        {
            expanded.push(false);
            selected.push(false);
        }
        DiscBrowserState { contents, source_path, cursor: 0, scroll: 0, expanded, selected }
    }

    /// The number of streams.
    pub fn len(&self) -> (r: usize)
        ensures
            r == self@.len(),
    {
        self.contents.presentations.len()
    }

    /// Puts the cursor on stream `i`, or on the last one.
    pub fn set_cursor(&mut self, i: usize)
        ensures
            final(self)@ == old(self)@.at_cursor(i as int),
    {
        let last: usize = self.len().saturating_sub(1);
        self.cursor = if i <= last { i } else { last };
    }

    /// Moves the cursor by `delta` streams, within the list.
    pub fn move_cursor(&mut self, delta: i32)
        ensures
            final(self)@ == old(self)@.at_cursor(moved(old(self).cursor as int, delta as int)),
    {
        let to: usize = move_by(self.cursor, delta);
        self.set_cursor(to);
    }

    /// Shows or hides the details of stream `i`.
    pub fn toggle_expanded(&mut self, i: usize)
        ensures
            final(self)@ == (DiscBrowserV {
                expanded: flipped(old(self)@.expanded, i as int),
                ..old(self)@
            }),
    {
        if i < self.expanded.len() {
            let now: bool = self.expanded[i];
            self.expanded.set(i, !now);
        }
    }

    /// Marks stream `i`, or takes the mark away.
    pub fn toggle_selected(&mut self, i: usize)
        ensures
            final(self)@ == (DiscBrowserV {
                selected: flipped(old(self)@.selected, i as int),
                ..old(self)@
            }),
    {
        if i < self.selected.len() {
            let now: bool = self.selected[i];
            self.selected.set(i, !now);
        }
    }

    /// Scrolls by `delta` rows.
    pub fn scroll_by_rows(&mut self, delta: i32)
        ensures
            final(self)@ == (DiscBrowserV {
                scroll: moved(old(self).scroll as int, delta as int) as usize,
                ..old(self)@
            }),
    {
        self.scroll = move_by(self.scroll, delta);
    }

    /// The number of rows: one for each stream, and the details of those expanded.
    pub fn visible_rows(&self) -> (r: usize)
        ensures
            r == self@.all_rows(),
    {
        let mut rows: usize = 0;
        for i in 0..self.contents.presentations.len()
            invariant
                rows == self@.rows(i as nat),
                i <= self.contents.presentations@.len(),
        {
            let details: usize = if i < self.expanded.len() && self.expanded[i] {
                self.contents.presentations[i].details.len()
            } else {
                0
            };
            rows = rows.saturating_add(1).saturating_add(details);
        }
        rows
    }
}

} // verus!
