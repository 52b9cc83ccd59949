//! The log buffer and the window that is scrolled over it.

use std::collections::VecDeque;
use vstd::prelude::*;

use crate::layout::Rect;
use crate::names::views;

verus! {

/// The number of lines that the buffer holds at most.
pub const MAX_BUFFER_LINES: usize = 20_000;

/// What an [`App`] holds.
pub struct LogModel {
    /// The buffered lines, oldest first.
    pub lines: Seq<Seq<char>>,
    /// Whether the window stays at the newest line.
    pub follow_tail: bool,
    /// How many lines lie below the window.
    pub scroll_from_bottom: int,
    /// The text of the status bar.
    pub status: Seq<char>,
}

/// The smaller of two integers.
pub open spec fn min_of(a: int, b: int) -> int {
    if a <= b {
        a
    } else {
        b
    }
}

/// The larger of two integers.
pub open spec fn max_of(a: int, b: int) -> int {
    if a >= b {
        a
    } else {
        b
    }
}

/// The last `n` items of `s`, or all of them where there are fewer.
pub open spec fn newest<A>(s: Seq<A>, n: nat) -> Seq<A> {
    if s.len() <= n {
        s
    } else {
        s.skip(s.len() - n)
    }
}

/// The number of lines that fit between the borders of a pane of that height.
pub open spec fn inner_height(height: u16) -> int {
    max_of(height - 2, 0)
}

/// The number of lines that a pane of that height shows: at least one.
pub open spec fn page_lines(height: u16) -> int {
    max_of(inner_height(height), 1)
}

impl LogModel {
    /// A buffer without lines that follows the tail.
    pub open spec fn empty() -> LogModel {
        LogModel {
            lines: Seq::empty(),
            follow_tail: true,
            scroll_from_bottom: 0,
            status: Seq::empty(),
        }
    }

    /// The buffer keeps its bound, the scroll offset stays below it, and a window that follows the
    /// tail is not scrolled.
    pub open spec fn well_formed(self) -> bool {
        &&& self.lines.len() <= MAX_BUFFER_LINES
        &&& 0 <= self.scroll_from_bottom < MAX_BUFFER_LINES
        &&& self.follow_tail ==> self.scroll_from_bottom == 0
    }

    /// The largest scroll offset: the oldest line is the last one of the window.
    pub open spec fn top_offset(self) -> int {
        max_of(self.lines.len() - 1, 0)
    }

    /// A line arrived; the oldest one leaves if there is no room.
    pub open spec fn pushed(self, line: Seq<char>) -> LogModel {
        LogModel {
            lines: newest(self.lines.push(line), MAX_BUFFER_LINES as nat),
            ..self
        }
    }

    /// Lines arrived one after the other.
    pub open spec fn pushed_all(self, arrived: Seq<Seq<char>>) -> LogModel
        decreases arrived.len(),
    {
        if arrived.len() == 0 {
            self
        } else {
            self.pushed_all(arrived.drop_last()).pushed(arrived.last())
        }
    }

    /// The window moved `n` lines towards the oldest line.
    pub open spec fn scrolled_up(self, n: nat) -> LogModel {
        LogModel {
            follow_tail: false,
            scroll_from_bottom: min_of(self.scroll_from_bottom + n, self.top_offset()),
            ..self
        }
    }

    /// The window moved `n` lines towards the newest line, and follows the tail once it is there.
    pub open spec fn scrolled_down(self, n: nat) -> LogModel {
        LogModel {
            follow_tail: self.follow_tail || self.scroll_from_bottom <= n,
            scroll_from_bottom: max_of(self.scroll_from_bottom - n, 0),
            ..self
        }
    }

    /// The window is at the newest line and stays there.
    pub open spec fn at_tail(self) -> LogModel {
        LogModel { follow_tail: true, scroll_from_bottom: 0, ..self }
    }

    /// The window is at the oldest line.
    pub open spec fn at_head(self) -> LogModel {
        LogModel { follow_tail: false, scroll_from_bottom: self.top_offset(), ..self }
    }

    /// The lines are gone, the window stays as it was.
    pub open spec fn cleared(self) -> LogModel {
        LogModel { lines: Seq::empty(), ..self }
    }

    /// The lines are gone and the window follows the tail.
    pub open spec fn restarted(self) -> LogModel {
        self.cleared().at_tail()
    }

    /// The index after the last line in the window.
    pub open spec fn window_end(self) -> int {
        if self.follow_tail {
            self.lines.len() as int
        } else {
            max_of(self.lines.len() - self.scroll_from_bottom, 0)
        }
    }

    /// The index of the first line in a window of that height.
    pub open spec fn window_start(self, height: u16) -> int {
        max_of(self.window_end() - page_lines(height), 0)
    }

    /// The lines in a window of that height.
    pub open spec fn window(self, height: u16) -> Seq<Seq<char>> {
        self.lines.subrange(self.window_start(height), self.window_end())
    }
}

/// The log buffer with its scroll position and status text.
pub struct App {
    lines: VecDeque<String>,
    follow_tail: bool,
    scroll_from_bottom: usize,
    status: String,
}

impl View for App {
    type V = LogModel;

    closed spec fn view(&self) -> LogModel {
        LogModel {
            lines: views(self.lines@),
            follow_tail: self.follow_tail,
            scroll_from_bottom: self.scroll_from_bottom as int,
            status: self.status@,
        }
    }
}

impl App {
    /// An empty buffer that follows the tail.
    pub fn new() -> (r: Self)
        ensures
            r@ == LogModel::empty(),
            r@.well_formed(),
    {
        let r = Self {
            lines: VecDeque::new(),
            follow_tail: true,
            scroll_from_bottom: 0,
            status: String::new(),
        };
        assert(r@.lines =~= Seq::empty());
        r
    }

    /// Appends `line`. At the bound of the buffer the oldest line leaves first.
    pub fn push_line(&mut self, line: String)
        requires
            old(self)@.well_formed(),
        ensures
            final(self)@ == old(self)@.pushed(line@),
            final(self)@.well_formed(),
    {
        if self.lines.len() >= MAX_BUFFER_LINES {
            let _ = self.lines.pop_front();
        }
        self.lines.push_back(line);
        assert(self@.lines =~= old(self)@.pushed(line@).lines);
    }

    /// Moves the window `n` lines up and stops following the tail.
    pub fn scroll_up(&mut self, n: usize)
        requires
            old(self)@.well_formed(),
            old(self)@.scroll_from_bottom + n <= usize::MAX,
        ensures
            final(self)@ == old(self)@.scrolled_up(n as nat),
            final(self)@.well_formed(),
    {
        self.follow_tail = false;
        let max: usize = self.lines.len().saturating_sub(1);
        self.scroll_from_bottom = (self.scroll_from_bottom + n).min(max);
    }

    /// Moves the window `n` lines down; at the bottom it follows the tail again.
    pub fn scroll_down(&mut self, n: usize)
        requires
            old(self)@.well_formed(),
        ensures
            final(self)@ == old(self)@.scrolled_down(n as nat),
            final(self)@.well_formed(),
    {
        self.scroll_from_bottom = self.scroll_from_bottom.saturating_sub(n);
        if self.scroll_from_bottom == 0 {
            self.follow_tail = true;
        }
    }

    /// Snaps the window to the newest line and follows the tail.
    pub fn snap_to_tail(&mut self)
        requires
            old(self)@.well_formed(),
        ensures
            final(self)@ == old(self)@.at_tail(),
            final(self)@.well_formed(),
    {
        self.follow_tail = true;
        self.scroll_from_bottom = 0;
    }

    /// Moves the window to the oldest line.
    pub fn jump_to_head(&mut self)
        requires
            old(self)@.well_formed(),
        ensures
            final(self)@ == old(self)@.at_head(),
            final(self)@.well_formed(),
    {
        self.follow_tail = false;
        self.scroll_from_bottom = self.lines.len().saturating_sub(1);
    }

    /// Drops the lines. The scroll position stays.
    pub fn clear_lines(&mut self)
        requires
            old(self)@.well_formed(),
        ensures
            final(self)@ == old(self)@.cleared(),
            final(self)@.well_formed(),
    {
        self.lines.clear();
        assert(self@.lines =~= Seq::empty());
    }

    /// Drops the lines and follows the tail, for the log of another pod.
    pub fn restart(&mut self)
        requires
            old(self)@.well_formed(),
        ensures
            final(self)@ == old(self)@.restarted(),
            final(self)@.well_formed(),
    {
        self.clear_lines();
        self.snap_to_tail();
    }

    /// The number of lines that fit between the borders of `area`.
    pub fn page_height(&self, area: Rect) -> (r: usize)
        ensures
            r == inner_height(area.height),
    {
        area.height.saturating_sub(2) as usize
    }

    /// The indices of the first line in a window the size of `area`, and of the line after its
    /// last one.
    pub fn visible_slice(&self, area: Rect) -> (r: (usize, usize))
        ensures
            r.0 == self@.window_start(area.height),
            r.1 == self@.window_end(),
            r.0 <= r.1 <= self@.lines.len(),
    {
        let page: usize = self.page_height(area).max(1);
        let total: usize = self.lines.len();
        if total == 0 {
            return (0, 0);
        }
        let end_exclusive: usize = if self.follow_tail {
            total
        } else {
            total.saturating_sub(self.scroll_from_bottom)
        };
        let start: usize = end_exclusive.saturating_sub(page);
        (start, end_exclusive)
    }

    /// Replaces the text of the status bar.
    pub fn set_status(&mut self, status: String)
        ensures
            final(self)@ == (LogModel { status: status@, ..old(self)@ }),
    {
        self.status = status;
    }

    /// The text of the status bar.
    pub fn status(&self) -> (r: &str)
        ensures
            r@ == self@.status,
    {
        self.status.as_str()
    }

    /// The number of buffered lines.
    pub fn line_count(&self) -> (r: usize)
        ensures
            r == self@.lines.len(),
    {
        self.lines.len()
    }

    /// The buffered line at `index`, counted from the oldest one.
    pub fn line(&self, index: usize) -> (r: &str)
        requires
            index < self@.lines.len(),
        ensures
            r@ == self@.lines[index as int],
    {
        self.lines[index].as_str()
    }

    /// Whether the window follows the tail.
    pub fn follows_tail(&self) -> (r: bool)
        ensures
            r == self@.follow_tail,
    {
        self.follow_tail
    }

    /// How many lines lie below the window.
    pub fn scroll_offset(&self) -> (r: usize)
        ensures
            r == self@.scroll_from_bottom,
    {
        self.scroll_from_bottom
    }
}

} // verus!
